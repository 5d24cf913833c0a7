//! The table of creators shown at the start of a run.

use vstd::prelude::*;
use vstd::string::*;

use crate::fanbox::Creator;
use crate::text::{
    decimal, lemma_bytes_before_asymmetric, lemma_bytes_before_transitive, pad_left, pad_right,
    padded_left, padded_right, repeat_unit, repeated, sorts_before, text_before, to_decimal,
};

verus! {

/// The position, from `from` on, of the first entry of `acc` whose
/// identifier sorts strictly after that of `c`; the length of `acc` where
/// there is none.
pub open spec fn insertion_point(acc: Seq<Creator>, c: Creator, from: int) -> int
    decreases acc.len() - from,
{
    if from < 0 || from >= acc.len() {
        acc.len() as int
    } else if text_before(c.creator_id@, acc[from].creator_id@) {
        from
    } else {
        insertion_point(acc, c, from + 1)
    }
}

/// `insertion_point` lies within the listing, at the first entry that
/// sorts after `c`.
pub proof fn lemma_insertion_point(acc: Seq<Creator>, c: Creator, from: int)
    requires
        0 <= from <= acc.len(),
    ensures
        from <= insertion_point(acc, c, from) <= acc.len(),
        insertion_point(acc, c, from) < acc.len() ==> text_before(
            c.creator_id@,
            acc[insertion_point(acc, c, from)].creator_id@,
        ),
        forall|k: int|
            from <= k < insertion_point(acc, c, from) ==> !text_before(
                c.creator_id@,
                (#[trigger] acc[k]).creator_id@,
            ),
    decreases acc.len() - from,
{
    if from < acc.len() && !text_before(c.creator_id@, acc[from].creator_id@) {
        lemma_insertion_point(acc, c, from + 1);
    }
}

/// The creators by ascending identifier; creators with the same identifier
/// keep their order.
pub open spec fn by_creator_id(listing: Seq<Creator>) -> Seq<Creator>
    decreases listing.len(),
{
    if listing.len() == 0 {
        Seq::empty()
    } else {
        let sorted = by_creator_id(listing.drop_last());
        sorted.insert(insertion_point(sorted, listing.last(), 0), listing.last())
    }
}

/// No entry sorts before an earlier one.
pub open spec fn ascending(listing: Seq<Creator>) -> bool {
    forall|i: int, j: int|
        #![trigger listing[i], listing[j]]
        0 <= i < j < listing.len() ==> !text_before(
            listing[j].creator_id@,
            listing[i].creator_id@,
        )
}

/// Sorting keeps the number of creators.
pub proof fn lemma_by_creator_id_len(listing: Seq<Creator>)
    ensures
        by_creator_id(listing).len() == listing.len(),
    decreases listing.len(),
{
    if listing.len() > 0 {
        lemma_by_creator_id_len(listing.drop_last());
        lemma_insertion_point(by_creator_id(listing.drop_last()), listing.last(), 0);
    }
}

/// The sorted listing is ascending by identifier and holds the same
/// creators as the listing, each as often.
pub proof fn lemma_by_creator_id_sorts(listing: Seq<Creator>)
    ensures
        ascending(by_creator_id(listing)),
        by_creator_id(listing).to_multiset() == listing.to_multiset(),
    decreases listing.len(),
{
    if listing.len() == 0 {
        assert(listing =~= Seq::<Creator>::empty());
    } else {
        let rest = listing.drop_last();
        let c = listing.last();
        let sorted = by_creator_id(rest);
        lemma_by_creator_id_sorts(rest);
        lemma_insertion_point(sorted, c, 0);
        let p = insertion_point(sorted, c, 0);
        let out = sorted.insert(p, c);
        let id = vstd::utf8::encode_utf8(c.creator_id@);
        assert forall|i: int, j: int|
            #![trigger out[i], out[j]]
            0 <= i < j < out.len() implies !text_before(out[j].creator_id@, out[i].creator_id@) by {
            if j == p {
                assert(out[i] == sorted[i]);
            } else if i == p {
                let later = sorted[j - 1];
                assert(out[j] == later);
                let later_id = vstd::utf8::encode_utf8(later.creator_id@);
                let at_id = vstd::utf8::encode_utf8(sorted[p].creator_id@);
                if text_before(later.creator_id@, c.creator_id@) {
                    lemma_bytes_before_transitive(later_id, id, at_id, 0);
                    if j - 1 == p {
                        lemma_bytes_before_asymmetric(later_id, id, 0);
                    } else {
                        assert(!text_before(sorted[j - 1].creator_id@, sorted[p].creator_id@));
                    }
                }
            } else if j < p {
                assert(out[i] == sorted[i] && out[j] == sorted[j]);
            } else if i < p {
                assert(out[i] == sorted[i] && out[j] == sorted[j - 1]);
            } else {
                assert(out[i] == sorted[i - 1] && out[j] == sorted[j - 1]);
            }
        }
        vstd::seq_lib::to_multiset_insert(sorted, p, c);
        vstd::seq_lib::to_multiset_build(rest, c);
        assert(rest.push(c) =~= listing);
    }
}

/// The entries of a listing whose identifier is `id`, in order.
pub open spec fn with_id(listing: Seq<Creator>, id: Seq<char>) -> Seq<Creator>
    decreases listing.len(),
{
    if listing.len() == 0 {
        Seq::empty()
    } else if listing.last().creator_id@ == id {
        with_id(listing.drop_last(), id).push(listing.last())
    } else {
        with_id(listing.drop_last(), id)
    }
}

proof fn lemma_with_id_insert(s: Seq<Creator>, p: int, c: Creator, id: Seq<char>)
    requires
        0 <= p <= s.len(),
        forall|j: int| p <= j < s.len() ==> (#[trigger] s[j]).creator_id@ != c.creator_id@,
    ensures
        with_id(s.insert(p, c), id) == if c.creator_id@ == id {
            with_id(s, id).push(c)
        } else {
            with_id(s, id)
        },
    decreases s.len(),
{
    let t = s.insert(p, c);
    if p == s.len() {
        assert(t =~= s.push(c));
        assert(t.drop_last() =~= s);
    } else {
        assert(t.drop_last() =~= s.drop_last().insert(p, c));
        assert(t.last() == s.last());
        assert(s[s.len() - 1].creator_id@ != c.creator_id@);
        lemma_with_id_insert(s.drop_last(), p, c, id);
    }
}

/// Sorting is stable: the creators with one identifier stand in the sorted
/// listing in the order in which the listing holds them.
pub proof fn lemma_by_creator_id_stable(listing: Seq<Creator>, id: Seq<char>)
    ensures
        with_id(by_creator_id(listing), id) == with_id(listing, id),
    decreases listing.len(),
{
    if listing.len() > 0 {
        let rest = listing.drop_last();
        let c = listing.last();
        let sorted = by_creator_id(rest);
        lemma_by_creator_id_stable(rest, id);
        lemma_by_creator_id_sorts(rest);
        lemma_insertion_point(sorted, c, 0);
        let p = insertion_point(sorted, c, 0);
        assert forall|j: int| p <= j < sorted.len() implies (#[trigger] sorted[j]).creator_id@
            != c.creator_id@ by {
            if sorted[j].creator_id@ == c.creator_id@ {
                if j == p {
                    lemma_bytes_before_asymmetric(
                        vstd::utf8::encode_utf8(c.creator_id@),
                        vstd::utf8::encode_utf8(sorted[p].creator_id@),
                        0,
                    );
                } else {
                    assert(!text_before(sorted[j].creator_id@, sorted[p].creator_id@));
                }
            }
        }
        lemma_with_id_insert(sorted, p, c, id);
    }
}

/// The number of bytes of a text in UTF-8.
pub open spec fn byte_len(s: Seq<char>) -> nat {
    vstd::utf8::encode_utf8(s).len()
}

/// The width of the identifier column: the longest identifier in bytes,
/// and at least 11.
pub open spec fn id_width(listing: Seq<Creator>) -> nat
    decreases listing.len(),
{
    if listing.len() == 0 {
        11
    } else {
        let rest = id_width(listing.drop_last());
        let own = byte_len(listing.last().creator_id@);
        if own > rest {
            own
        } else {
            rest
        }
    }
}

/// The width of the fee column: the longest fee numeral, and at least 5.
pub open spec fn fee_width(listing: Seq<Creator>) -> nat
    decreases listing.len(),
{
    if listing.len() == 0 {
        5
    } else {
        let rest = fee_width(listing.drop_last());
        let own = decimal(listing.last().fee as nat).len();
        if own > rest {
            own
        } else {
            rest
        }
    }
}

/// The line above the rows.
pub open spec fn header_line(id_width: nat, fee_width: nat) -> Seq<char> {
    "+-"@ + padded_right(" CreatorId "@, id_width, "-"@) + "-+-"@ + padded_right(
        " Fee "@,
        fee_width,
        "-"@,
    ) + "--+-"@ + " Name "@ + "------- - -"@
}

/// The row of one creator: the identifier padded on the right, the fee
/// padded on the left, the name.
pub open spec fn row_line(c: Creator, id_width: nat, fee_width: nat) -> Seq<char> {
    "| "@ + padded_right(c.creator_id@, id_width, " "@) + " | "@ + padded_left(
        decimal(c.fee as nat),
        fee_width,
        " "@,
    ) + "$ | "@ + c.name@
}

/// The line below the rows.
pub open spec fn footer_line(id_width: nat, fee_width: nat) -> Seq<char> {
    "+-"@ + repeated("-"@, id_width) + "-+-"@ + repeated("-"@, fee_width) + "--+------------ - -"@
}

/// The table: the header, one row per creator by ascending identifier, the
/// footer and an empty line.
pub open spec fn table(listing: Seq<Creator>) -> Seq<Seq<char>> {
    let w = id_width(listing);
    let f = fee_width(listing);
    let sorted = by_creator_id(listing);
    seq![header_line(w, f)] + Seq::new(sorted.len(), |i: int| row_line(sorted[i], w, f))
        + seq![footer_line(w, f), Seq::<char>::empty()]
}

/// The texts of a sequence of lines.
pub open spec fn lines_view(lines: Seq<String>) -> Seq<Seq<char>> {
    Seq::new(lines.len(), |i: int| lines[i]@)
}

/// Sorts creators by ascending identifier.
pub fn sort_by_creator_id(listing: &[Creator]) -> (sorted: Vec<Creator>)
    ensures
        sorted@ == by_creator_id(listing@),
        sorted@.len() == listing@.len(),
{
    let mut sorted: Vec<Creator> = Vec::new();
    let mut i: usize = 0;
    while i < listing.len()
        invariant
            i <= listing@.len(),
            sorted@ == by_creator_id(listing@.take(i as int)),
        decreases listing@.len() - i,
    {
        proof {
            assert(listing@.take(i + 1).drop_last() =~= listing@.take(i as int));
        }
        let c = listing[i].duplicate();
        let mut at: usize = 0;
        while at < sorted.len() && !sorts_before(c.creator_id.as_str(), sorted[at].creator_id.as_str())
            invariant
                at <= sorted@.len(),
                insertion_point(sorted@, c, 0) == insertion_point(sorted@, c, at as int),
            decreases sorted@.len() - at,
        {
            at = at + 1;
        }
        sorted.insert(at, c);
        i = i + 1;
    }
    proof {
        assert(listing@.take(i as int) =~= listing@);
        lemma_by_creator_id_len(listing@);
    }
    sorted
}

/// Measures the two columns.
pub fn column_widths(listing: &[Creator]) -> (widths: (usize, usize))
    ensures
        widths.0 == id_width(listing@),
        widths.1 == fee_width(listing@),
{
    let mut id: usize = 11;
    let mut fee: usize = 5;
    let mut i: usize = 0;
    while i < listing.len()
        invariant
            i <= listing@.len(),
            id == id_width(listing@.take(i as int)),
            fee == fee_width(listing@.take(i as int)),
        decreases listing@.len() - i,
    {
        proof {
            assert(listing@.take(i + 1).drop_last() =~= listing@.take(i as int));
        }
        let own_id: usize = listing[i].creator_id.as_str().as_bytes().len();
        if own_id > id {
            id = own_id;
        }
        let own_fee: usize = to_decimal(listing[i].fee as u64).as_str().unicode_len();
        if own_fee > fee {
            fee = own_fee;
        }
        i = i + 1;
    }
    proof {
        assert(listing@.take(i as int) =~= listing@);
    }
    (id, fee)
}

fn header(id_width: usize, fee_width: usize) -> (line: String)
    ensures
        line@ == header_line(id_width as nat, fee_width as nat),
{
    let mut line = String::from_str("+-");
    line.append(pad_right(" CreatorId ", id_width, "-").as_str());
    line.append("-+-");
    line.append(pad_right(" Fee ", fee_width, "-").as_str());
    line.append("--+-");
    line.append(" Name ");
    line.append("------- - -");
    line
}

fn row(c: &Creator, id_width: usize, fee_width: usize) -> (line: String)
    ensures
        line@ == row_line(*c, id_width as nat, fee_width as nat),
{
    let mut line = String::from_str("| ");
    line.append(pad_right(c.creator_id.as_str(), id_width, " ").as_str());
    line.append(" | ");
    line.append(pad_left(to_decimal(c.fee as u64).as_str(), fee_width, " ").as_str());
    line.append("$ | ");
    line.append(c.name.as_str());
    line
}

fn footer(id_width: usize, fee_width: usize) -> (line: String)
    ensures
        line@ == footer_line(id_width as nat, fee_width as nat),
{
    let mut line = String::from_str("+-");
    line.append(repeat_unit("-", id_width).as_str());
    line.append("-+-");
    line.append(repeat_unit("-", fee_width).as_str());
    line.append("--+------------ - -");
    line
}

/// Lays the creators out as a table, one text per line: a header, one row
/// per creator by ascending identifier, a footer and an empty line.
pub fn display_creators(creators: &[Creator]) -> (lines: Vec<String>)
    ensures
        lines_view(lines@) == table(creators@),
{
    let sorted = sort_by_creator_id(creators);
    let (w, f) = column_widths(creators);
    let ghost rows = Seq::new(sorted@.len(), |i: int| row_line(sorted@[i], w as nat, f as nat));
    let mut lines: Vec<String> = Vec::new();
    lines.push(header(w, f));
    let ghost top = lines_view(lines@);
    assert(top =~= seq![header_line(w as nat, f as nat)]);
    let mut i: usize = 0;
    assert(top + rows.take(0) =~= top);
    while i < sorted.len()
        invariant
            i <= sorted@.len(),
            rows == Seq::new(sorted@.len(), |i: int| row_line(sorted@[i], w as nat, f as nat)),
            lines_view(lines@) =~= top + rows.take(i as int),
        decreases sorted@.len() - i,
    {
        let ghost before = lines@;
        let line = row(&sorted[i], w, f);
        lines.push(line);
        proof {
            assert(lines_view(lines@) =~= lines_view(before).push(line@));
            assert(rows.take(i + 1) =~= rows.take(i as int).push(rows[i as int]));
        }
        i = i + 1;
    }
    assert(rows.take(i as int) =~= rows);
    let ghost body = lines@;
    let last = footer(w, f);
    lines.push(last);
    lines.push(String::new());
    assert(lines_view(lines@) =~= lines_view(body) + seq![
        footer_line(w as nat, f as nat),
        Seq::<char>::empty(),
    ]);
    lines
}

} // verus!
