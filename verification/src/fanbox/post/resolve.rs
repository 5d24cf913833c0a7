//! Resolution of a post body into an ordered sequence of content nodes.

use vstd::prelude::*;

use super::body::{
    PostBlock, PostBlockStyle, PostBody, PostEmbed, PostFile, PostImage, PostTextEmbed, PostVideo,
};

verus! {

/// The kind of a block that refers to a payload by identifier.
#[derive(Debug, Clone, Copy, PartialEq, Eq, Hash)]
pub enum BlockKind {
    Image,
    File,
    Embed,
    UrlEmbed,
    Video,
}

/// One node of a resolved body.
#[derive(Debug, Clone, PartialEq, Eq, Hash)]
pub enum ResolvedContentNode {
    Text { text: String, styles: Option<Vec<PostBlockStyle>> },
    Header { text: String, styles: Option<Vec<PostBlockStyle>> },
    Image { mime: String, filename: String, url: String, width: u32, height: u32 },
    File { mime: String, filename: String, url: String, size: u64 },
    Video { service_provider: String, video_id: String },
    Embed { embed: PostEmbed },
    UrlEmbed { embed: PostTextEmbed },
    Dangling { kind: BlockKind, id: String },
}

/// The mathematical value of a node.
pub enum ContentNode {
    Text { text: Seq<char>, styles: Option<Seq<PostBlockStyle>> },
    Header { text: Seq<char>, styles: Option<Seq<PostBlockStyle>> },
    Image { mime: Seq<char>, filename: Seq<char>, url: Seq<char>, width: u32, height: u32 },
    File { mime: Seq<char>, filename: Seq<char>, url: Seq<char>, size: u64 },
    Video { service_provider: Seq<char>, video_id: Seq<char> },
    Embed { embed: PostEmbed },
    UrlEmbed { embed: PostTextEmbed },
    Dangling { kind: BlockKind, id: Seq<char> },
}

/// The style spans of a text block as a sequence.
pub open spec fn styles_view(styles: Option<Vec<PostBlockStyle>>) -> Option<Seq<PostBlockStyle>> {
    match styles {
        Some(spans) => Some(spans@),
        None => None,
    }
}

impl View for ResolvedContentNode {
    type V = ContentNode;

    open spec fn view(&self) -> ContentNode {
        match *self {
            ResolvedContentNode::Text { text, styles } => ContentNode::Text {
                text: text@,
                styles: styles_view(styles),
            },
            ResolvedContentNode::Header { text, styles } => ContentNode::Header {
                text: text@,
                styles: styles_view(styles),
            },
            ResolvedContentNode::Image { mime, filename, url, width, height } => ContentNode::Image {
                mime: mime@,
                filename: filename@,
                url: url@,
                width,
                height,
            },
            ResolvedContentNode::File { mime, filename, url, size } => ContentNode::File {
                mime: mime@,
                filename: filename@,
                url: url@,
                size,
            },
            ResolvedContentNode::Video { service_provider, video_id } => ContentNode::Video {
                service_provider: service_provider@,
                video_id: video_id@,
            },
            ResolvedContentNode::Embed { embed } => ContentNode::Embed { embed },
            ResolvedContentNode::UrlEmbed { embed } => ContentNode::UrlEmbed { embed },
            ResolvedContentNode::Dangling { kind, id } => ContentNode::Dangling { kind, id: id@ },
        }
    }
}

/// The values of a sequence of nodes, in order.
pub open spec fn nodes_view(nodes: Seq<ResolvedContentNode>) -> Seq<ContentNode> {
    Seq::new(nodes.len(), |i: int| nodes[i]@)
}

/// The node that stands for an image payload.
pub open spec fn image_node(image: PostImage) -> ContentNode {
    ContentNode::Image {
        mime: image.spec_mime(),
        filename: image.spec_filename(),
        url: image.original_url@,
        width: image.width,
        height: image.height,
    }
}

/// The node that stands for a file payload.
pub open spec fn file_node(file: PostFile) -> ContentNode {
    ContentNode::File {
        mime: file.spec_mime(),
        filename: file.spec_filename(),
        url: file.url@,
        size: file.size,
    }
}

/// The node that stands for a video payload.
pub open spec fn video_node(video: PostVideo) -> ContentNode {
    ContentNode::Video { service_provider: video.service_provider@, video_id: video.video_id@ }
}

/// The first video among `videos` from position `from` on whose identifier
/// is `id`.
pub open spec fn first_video(videos: Seq<PostVideo>, id: Seq<char>, from: int) -> Option<PostVideo>
    decreases videos.len() - from,
{
    if from < 0 || from >= videos.len() {
        None
    } else if videos[from].video_id@ == id {
        Some(videos[from])
    } else {
        first_video(videos, id, from + 1)
    }
}

impl PostBody {
    /// The image that the image table holds under `id`.
    pub open spec fn image_for(&self, id: Seq<char>) -> Option<PostImage> {
        match self.image_map {
            Some(table) => table.spec_get(id),
            None => None,
        }
    }

    /// The file that the file table holds under `id`.
    pub open spec fn file_for(&self, id: Seq<char>) -> Option<PostFile> {
        match self.file_map {
            Some(table) => table.spec_get(id),
            None => None,
        }
    }

    /// The embed that the embed table holds under `id`.
    pub open spec fn embed_for(&self, id: Seq<char>) -> Option<PostEmbed> {
        match self.embed_map {
            Some(table) => table.spec_get(id),
            None => None,
        }
    }

    /// The entry that the URL embed table holds under `id`.
    pub open spec fn url_embed_for(&self, id: Seq<char>) -> Option<PostTextEmbed> {
        match self.url_embed_map {
            Some(table) => table.spec_get(id),
            None => None,
        }
    }

    /// The video that a video block with identifier `id` refers to: the
    /// first listed video with that identifier, else the single video where
    /// it has that identifier.
    pub open spec fn video_for(&self, id: Seq<char>) -> Option<PostVideo> {
        let listed = match self.videos {
            Some(videos) => first_video(videos@, id, 0),
            None => None,
        };
        match listed {
            Some(video) => Some(video),
            None => match self.video {
                Some(video) => if video.video_id@ == id {
                    Some(video)
                } else {
                    None
                },
                None => None,
            },
        }
    }

    /// The node that a block resolves to. A block whose identifier has no
    /// payload becomes a dangling node that keeps the block's kind and
    /// identifier.
    pub open spec fn block_node(&self, block: PostBlock) -> ContentNode {
        match block {
            PostBlock::P { text, styles } => ContentNode::Text {
                text: text@,
                styles: styles_view(styles),
            },
            PostBlock::Header { text, styles } => ContentNode::Header {
                text: text@,
                styles: styles_view(styles),
            },
            PostBlock::Image { image_id } => match self.image_for(image_id@) {
                Some(image) => image_node(image),
                None => ContentNode::Dangling { kind: BlockKind::Image, id: image_id@ },
            },
            PostBlock::File { file_id } => match self.file_for(file_id@) {
                Some(file) => file_node(file),
                None => ContentNode::Dangling { kind: BlockKind::File, id: file_id@ },
            },
            PostBlock::Embed { embed_id } => match self.embed_for(embed_id@) {
                Some(embed) => ContentNode::Embed { embed },
                None => ContentNode::Dangling { kind: BlockKind::Embed, id: embed_id@ },
            },
            PostBlock::UrlEmbed { url_embed_id } => match self.url_embed_for(url_embed_id@) {
                Some(embed) => ContentNode::UrlEmbed { embed },
                None => ContentNode::Dangling { kind: BlockKind::UrlEmbed, id: url_embed_id@ },
            },
            PostBlock::Video { video_id } => match self.video_for(video_id@) {
                Some(video) => video_node(video),
                None => ContentNode::Dangling { kind: BlockKind::Video, id: video_id@ },
            },
        }
    }

    /// The node for the plain text, if the body has any.
    pub open spec fn text_nodes(&self) -> Seq<ContentNode> {
        match self.text {
            Some(text) => seq![ContentNode::Text { text: text@, styles: None }],
            None => Seq::empty(),
        }
    }

    /// One node per block, in block order.
    pub open spec fn block_nodes(&self) -> Seq<ContentNode> {
        match self.blocks {
            Some(blocks) => Seq::new(blocks@.len(), |i: int| self.block_node(blocks@[i])),
            None => Seq::empty(),
        }
    }

    /// One node per directly listed image, in list order.
    pub open spec fn listed_image_nodes(&self) -> Seq<ContentNode> {
        match self.images {
            Some(images) => Seq::new(images@.len(), |i: int| image_node(images@[i])),
            None => Seq::empty(),
        }
    }

    /// One node per directly listed video, in list order.
    pub open spec fn listed_video_nodes(&self) -> Seq<ContentNode> {
        match self.videos {
            Some(videos) => Seq::new(videos@.len(), |i: int| video_node(videos@[i])),
            None => Seq::empty(),
        }
    }

    /// One node per directly listed file, in list order.
    pub open spec fn listed_file_nodes(&self) -> Seq<ContentNode> {
        match self.files {
            Some(files) => Seq::new(files@.len(), |i: int| file_node(files@[i])),
            None => Seq::empty(),
        }
    }

    /// The nodes for the directly listed payloads: images, then videos,
    /// then files.
    pub open spec fn listed_nodes(&self) -> Seq<ContentNode> {
        self.listed_image_nodes() + self.listed_video_nodes() + self.listed_file_nodes()
    }

    /// The resolved body: the plain text if any, one node per block in
    /// block order, then the directly listed payloads.
    pub open spec fn resolved(&self) -> Seq<ContentNode> {
        self.text_nodes() + self.block_nodes() + self.listed_nodes()
    }
}

/// Copies the style spans of a text block.
fn copy_styles(styles: &Option<Vec<PostBlockStyle>>) -> (copy: Option<Vec<PostBlockStyle>>)
    ensures
        styles_view(copy) == styles_view(*styles),
{
    match styles {
        None => None,
        Some(spans) => {
            let mut out: Vec<PostBlockStyle> = Vec::new();
            let mut i: usize = 0;
            while i < spans.len()
                invariant
                    i <= spans@.len(),
                    out@ =~= spans@.take(i as int),
                decreases spans@.len() - i,
            {
                out.push(spans[i].duplicate());
                i = i + 1;
            }
            assert(spans@.take(i as int) =~= spans@);
            Some(out)
        },
    }
}

/// Builds the node for an image payload.
pub fn resolve_image(image: &PostImage) -> (node: ResolvedContentNode)
    ensures
        node@ == image_node(*image),
{
    ResolvedContentNode::Image {
        mime: image.mime(),
        filename: image.filename(),
        url: image.original_url.clone(),
        width: image.width,
        height: image.height,
    }
}

/// Builds the node for a file payload.
pub fn resolve_file(file: &PostFile) -> (node: ResolvedContentNode)
    ensures
        node@ == file_node(*file),
{
    ResolvedContentNode::File {
        mime: file.mime(),
        filename: file.filename(),
        url: file.url.clone(),
        size: file.size,
    }
}

/// Builds the node for a video payload.
pub fn resolve_video(video: &PostVideo) -> (node: ResolvedContentNode)
    ensures
        node@ == video_node(*video),
{
    ResolvedContentNode::Video {
        service_provider: video.service_provider.clone(),
        video_id: video.video_id.clone(),
    }
}

impl PostBody {
    /// Finds the video that a video block with identifier `id` refers to.
    pub fn find_video(&self, id: &String) -> (found: Option<&PostVideo>)
        ensures
            match found {
                Some(video) => self.video_for(id@) == Some(*video),
                None => self.video_for(id@) is None,
            },
    {
        if let Some(videos) = &self.videos {
            let mut i: usize = 0;
            while i < videos.len()
                invariant
                    i <= videos@.len(),
                    self.videos == Some(*videos),
                    first_video(videos@, id@, 0) == first_video(videos@, id@, i as int),
                decreases videos@.len() - i,
            {
                if videos[i].video_id == *id {
                    return Some(&videos[i]);
                }
                i = i + 1;
            }
        }
        match &self.video {
            Some(video) => if video.video_id == *id {
                Some(video)
            } else {
                None
            },
            None => None,
        }
    }

    /// Resolves one block against the body's tables.
    pub fn resolve_block(&self, block: &PostBlock) -> (node: ResolvedContentNode)
        ensures
            node@ == self.block_node(*block),
    {
        match block {
            PostBlock::P { text, styles } => ResolvedContentNode::Text {
                text: text.clone(),
                styles: copy_styles(styles),
            },
            PostBlock::Header { text, styles } => ResolvedContentNode::Header {
                text: text.clone(),
                styles: copy_styles(styles),
            },
            PostBlock::Image { image_id } => {
                let found = match &self.image_map {
                    Some(table) => table.get(image_id),
                    None => None,
                };
                match found {
                    Some(image) => resolve_image(image),
                    None => ResolvedContentNode::Dangling {
                        kind: BlockKind::Image,
                        id: image_id.clone(),
                    },
                }
            },
            PostBlock::File { file_id } => {
                let found = match &self.file_map {
                    Some(table) => table.get(file_id),
                    None => None,
                };
                match found {
                    Some(file) => resolve_file(file),
                    None => ResolvedContentNode::Dangling {
                        kind: BlockKind::File,
                        id: file_id.clone(),
                    },
                }
            },
            PostBlock::Embed { embed_id } => {
                let found = match &self.embed_map {
                    Some(table) => table.get(embed_id),
                    None => None,
                };
                match found {
                    Some(embed) => ResolvedContentNode::Embed { embed: embed.duplicate() },
                    None => ResolvedContentNode::Dangling {
                        kind: BlockKind::Embed,
                        id: embed_id.clone(),
                    },
                }
            },
            PostBlock::UrlEmbed { url_embed_id } => {
                let found = match &self.url_embed_map {
                    Some(table) => table.get(url_embed_id),
                    None => None,
                };
                match found {
                    Some(embed) => ResolvedContentNode::UrlEmbed { embed: embed.duplicate() },
                    None => ResolvedContentNode::Dangling {
                        kind: BlockKind::UrlEmbed,
                        id: url_embed_id.clone(),
                    },
                }
            },
            PostBlock::Video { video_id } => match self.find_video(video_id) {
                Some(video) => resolve_video(video),
                None => ResolvedContentNode::Dangling {
                    kind: BlockKind::Video,
                    id: video_id.clone(),
                },
            },
        }
    }

    /// Appends one node per block, in block order.
    fn push_block_nodes(&self, out: &mut Vec<ResolvedContentNode>)
        ensures
            nodes_view(final(out)@) == nodes_view(old(out)@) + self.block_nodes(),
    {
        let ghost start = nodes_view(out@);
        let ghost all = self.block_nodes();
        assert(start + Seq::<ContentNode>::empty() =~= start);
        if let Some(blocks) = &self.blocks {
            let mut i: usize = 0;
            assert(all.take(0) =~= Seq::<ContentNode>::empty());
            while i < blocks.len()
                invariant
                    i <= blocks@.len(),
                    self.blocks == Some(*blocks),
                    all == self.block_nodes(),
                    nodes_view(out@) =~= start + all.take(i as int),
                decreases blocks@.len() - i,
            {
                let ghost before = out@;
                let node = self.resolve_block(&blocks[i]);
                out.push(node);
                proof {
                    assert(nodes_view(out@) =~= nodes_view(before).push(node@));
                    assert(all[i as int] == node@);
                    assert(all.take(i + 1) =~= all.take(i as int).push(all[i as int]));
                }
                i = i + 1;
            }
            assert(all.take(i as int) =~= all);
        }
    }

    /// Appends one node per directly listed payload: images, then videos,
    /// then files.
    fn push_listed_nodes(&self, out: &mut Vec<ResolvedContentNode>)
        ensures
            nodes_view(final(out)@) == nodes_view(old(out)@) + self.listed_nodes(),
    {
        let ghost start = nodes_view(out@);
        let ghost images = self.listed_image_nodes();
        let ghost videos = self.listed_video_nodes();
        let ghost files = self.listed_file_nodes();
        assert(start + Seq::<ContentNode>::empty() =~= start);
        if let Some(list) = &self.images {
            let mut i: usize = 0;
            assert(images.take(0) =~= Seq::<ContentNode>::empty());
            while i < list.len()
                invariant
                    i <= list@.len(),
                    self.images == Some(*list),
                    images == self.listed_image_nodes(),
                    nodes_view(out@) =~= start + images.take(i as int),
                decreases list@.len() - i,
            {
                let ghost before = out@;
                let node = resolve_image(&list[i]);
                out.push(node);
                proof {
                    assert(nodes_view(out@) =~= nodes_view(before).push(node@));
                    assert(images[i as int] == node@);
                    assert(images.take(i + 1) =~= images.take(i as int).push(images[i as int]));
                }
                i = i + 1;
            }
            assert(images.take(i as int) =~= images);
        }
        let ghost middle = nodes_view(out@);
        assert(middle =~= start + images);
        assert(middle + Seq::<ContentNode>::empty() =~= middle);
        if let Some(list) = &self.videos {
            let mut i: usize = 0;
            assert(videos.take(0) =~= Seq::<ContentNode>::empty());
            while i < list.len()
                invariant
                    i <= list@.len(),
                    self.videos == Some(*list),
                    videos == self.listed_video_nodes(),
                    nodes_view(out@) =~= middle + videos.take(i as int),
                decreases list@.len() - i,
            {
                let ghost before = out@;
                let node = resolve_video(&list[i]);
                out.push(node);
                proof {
                    assert(nodes_view(out@) =~= nodes_view(before).push(node@));
                    assert(videos[i as int] == node@);
                    assert(videos.take(i + 1) =~= videos.take(i as int).push(videos[i as int]));
                }
                i = i + 1;
            }
            assert(videos.take(i as int) =~= videos);
        }
        let ghost late = nodes_view(out@);
        assert(late =~= start + images + videos);
        assert(late + Seq::<ContentNode>::empty() =~= late);
        if let Some(list) = &self.files {
            let mut i: usize = 0;
            assert(files.take(0) =~= Seq::<ContentNode>::empty());
            while i < list.len()
                invariant
                    i <= list@.len(),
                    self.files == Some(*list),
                    files == self.listed_file_nodes(),
                    nodes_view(out@) =~= late + files.take(i as int),
                decreases list@.len() - i,
            {
                let ghost before = out@;
                let node = resolve_file(&list[i]);
                out.push(node);
                proof {
                    assert(nodes_view(out@) =~= nodes_view(before).push(node@));
                    assert(files[i as int] == node@);
                    assert(files.take(i + 1) =~= files.take(i as int).push(files[i as int]));
                }
                i = i + 1;
            }
            assert(files.take(i as int) =~= files);
        }
        assert(nodes_view(out@) =~= start + (images + videos + files));
    }
}

/// Resolves a body into its ordered sequence of nodes: the plain text if
/// any, one node per block in block order, then one node per directly
/// listed image, video and file. A block whose identifier has no payload
/// yields a dangling node; resolution never fails.
pub fn resolve(body: &PostBody) -> (nodes: Vec<ResolvedContentNode>)
    ensures
        nodes_view(nodes@) == body.resolved(),
{
    let mut nodes: Vec<ResolvedContentNode> = Vec::new();
    if let Some(text) = &body.text {
        nodes.push(ResolvedContentNode::Text { text: text.clone(), styles: None });
    }
    assert(nodes_view(nodes@) =~= body.text_nodes());
    body.push_block_nodes(&mut nodes);
    body.push_listed_nodes(&mut nodes);
    nodes
}

/// Resolution keeps the blocks' order: the resolved body has one node per
/// block, the node at a block's position (after the plain text, if any) is
/// the node of that block, and the directly listed payloads follow.
pub proof fn lemma_resolve_keeps_block_order(body: PostBody)
    requires
        body.blocks is Some,
    ensures
        body.block_nodes().len() == body.blocks.unwrap()@.len(),
        body.resolved().len() == body.text_nodes().len() + body.blocks.unwrap()@.len()
            + body.listed_nodes().len(),
        forall|i: int|
            0 <= i < body.blocks.unwrap()@.len() ==> #[trigger] body.resolved()[
                body.text_nodes().len() + i
            ] == body.block_node(body.blocks.unwrap()@[i]),
        forall|j: int|
            0 <= j < body.listed_nodes().len() ==> #[trigger] body.resolved()[
                body.text_nodes().len() + body.blocks.unwrap()@.len() + j
            ] == body.listed_nodes()[j],
{
}

/// The identifier that a block refers to and the table it is looked up in;
/// `None` for a text block.
pub open spec fn block_reference(block: PostBlock) -> Option<(BlockKind, Seq<char>)> {
    match block {
        PostBlock::P { .. } => None,
        PostBlock::Header { .. } => None,
        PostBlock::Image { image_id } => Some((BlockKind::Image, image_id@)),
        PostBlock::File { file_id } => Some((BlockKind::File, file_id@)),
        PostBlock::Embed { embed_id } => Some((BlockKind::Embed, embed_id@)),
        PostBlock::UrlEmbed { url_embed_id } => Some((BlockKind::UrlEmbed, url_embed_id@)),
        PostBlock::Video { video_id } => Some((BlockKind::Video, video_id@)),
    }
}

impl PostBody {
    /// Whether the body holds a payload of kind `kind` under `id`.
    pub open spec fn has_payload(&self, kind: BlockKind, id: Seq<char>) -> bool {
        match kind {
            BlockKind::Image => self.image_for(id) is Some,
            BlockKind::File => self.file_for(id) is Some,
            BlockKind::Embed => self.embed_for(id) is Some,
            BlockKind::UrlEmbed => self.url_embed_for(id) is Some,
            BlockKind::Video => self.video_for(id) is Some,
        }
    }
}

/// A block resolves to a dangling node exactly when it refers to an
/// identifier without a payload, and the dangling node keeps the block's
/// kind and identifier.
pub proof fn lemma_dangling_keeps_reference(body: PostBody, block: PostBlock)
    ensures
        body.block_node(block) is Dangling <==> (block_reference(block) is Some
            && !body.has_payload(block_reference(block).unwrap().0, block_reference(block).unwrap().1)),
        body.block_node(block) is Dangling ==> body.block_node(block) == (ContentNode::Dangling {
            kind: block_reference(block).unwrap().0,
            id: block_reference(block).unwrap().1,
        }),
{
}

impl PostBody {
    /// At most one of the plain text and the block sequence carries the
    /// narrative content.
    pub open spec fn well_formed(&self) -> bool {
        !(self.text is Some && self.blocks is Some)
    }

    /// Tests whether at most one of the plain text and the block sequence
    /// is there.
    pub fn is_well_formed(&self) -> (ok: bool)
        ensures
            ok == self.well_formed(),
    {
        !(self.text.is_some() && self.blocks.is_some())
    }

    /// Whether the body lists no payload directly.
    pub open spec fn lists_nothing(&self) -> bool {
        self.listed_nodes().len() == 0
    }
}

/// A well-formed body with N blocks resolves to exactly one node per
/// block, in block order, followed by the nodes of the directly listed
/// payloads; with no listed payload the resolved body has exactly N nodes.
pub proof fn lemma_one_node_per_block(body: PostBody)
    requires
        body.well_formed(),
        body.blocks is Some,
    ensures
        body.resolved() == body.block_nodes() + body.listed_nodes(),
        body.resolved().len() == body.blocks.unwrap()@.len() + body.listed_nodes().len(),
        forall|i: int|
            0 <= i < body.blocks.unwrap()@.len() ==> #[trigger] body.resolved()[i]
                == body.block_node(body.blocks.unwrap()@[i]),
        forall|j: int|
            0 <= j < body.listed_nodes().len() ==> #[trigger] body.resolved()[body.blocks.unwrap()@.len()
                + j] == body.listed_nodes()[j],
        body.lists_nothing() ==> body.resolved().len() == body.blocks.unwrap()@.len(),
{
    assert(body.text_nodes() =~= Seq::<ContentNode>::empty());
    assert(body.resolved() =~= body.block_nodes() + body.listed_nodes());
}

/// In a well-formed body the node at the place of an image block is built
/// from the payload that the image table holds under the block's
/// identifier: its media type, its file name, its address and its size.
/// The place is the block's, whatever the table's order, and a repeated
/// identifier gives a repeated node.
pub proof fn lemma_image_block_uses_its_payload(body: PostBody, i: int)
    requires
        body.well_formed(),
        body.blocks is Some,
        0 <= i < body.blocks.unwrap()@.len(),
        body.blocks.unwrap()@[i] is Image,
        body.image_for(body.blocks.unwrap()@[i]->image_id@) is Some,
    ensures
        body.resolved()[i] == image_node(
            body.image_for(body.blocks.unwrap()@[i]->image_id@).unwrap(),
        ),
        body.resolved()[i]->Image_mime == body.image_for(
            body.blocks.unwrap()@[i]->image_id@,
        ).unwrap().spec_mime(),
        body.resolved()[i]->Image_filename == body.image_for(
            body.blocks.unwrap()@[i]->image_id@,
        ).unwrap().spec_filename(),
{
    lemma_one_node_per_block(body);
}

} // verus!
