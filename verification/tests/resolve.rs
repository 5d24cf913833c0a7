use fanbox_archive::fanbox::post::body::{
    mime_for, mime_or_octet_stream, PostBlock, PostBlockStyle, PostBody, PostEmbed, PostFile,
    PostImage, PostTextEmbed, PostVideo,
};
use fanbox_archive::fanbox::post::resolve::{resolve, BlockKind, ResolvedContentNode};
use fanbox_archive::fanbox::post::table::SideTable;

fn empty_body() -> PostBody {
    PostBody {
        text: None,
        blocks: None,
        images: None,
        videos: None,
        video: None,
        files: None,
        image_map: None,
        file_map: None,
        embed_map: None,
        url_embed_map: None,
    }
}

fn image(id: &str, extension: &str) -> PostImage {
    PostImage {
        id: id.to_string(),
        extension: extension.to_string(),
        width: 640,
        height: 480,
        original_url: format!("https://example.test/{}.{}", id, extension),
        thumbnail_url: format!("https://example.test/t/{}.{}", id, extension),
    }
}

fn file(id: &str, name: &str, extension: &str) -> PostFile {
    PostFile {
        id: id.to_string(),
        name: name.to_string(),
        extension: extension.to_string(),
        size: 1234,
        url: format!("https://example.test/f/{}", id),
    }
}

#[test]
fn image_filename_is_id_dot_extension() {
    assert_eq!(image("abc", "png").filename(), "abc.png");
    assert_eq!(image("", "").filename(), ".");
}

#[test]
fn file_filename_is_name_dot_extension() {
    assert_eq!(file("f1", "notes", "txt").filename(), "notes.txt");
}

#[test]
fn mime_follows_the_extension() {
    assert_eq!(image("abc", "png").mime(), "image/png");
    assert_eq!(image("abc", "PNG").mime(), "image/png");
    assert_eq!(file("f1", "notes", "txt").mime(), "text/plain");
    assert_eq!(mime_for("jpg"), "image/jpeg");
}

#[test]
fn mime_falls_back_to_octet_stream() {
    assert_eq!(file("f1", "blob", "zzzunknownzzz").mime(), "application/octet-stream");
    assert_eq!(image("abc", "").mime(), "application/octet-stream");
    assert_eq!(mime_or_octet_stream(None), "application/octet-stream");
    assert_eq!(mime_or_octet_stream(Some("image/gif".to_string())), "image/gif");
}

#[test]
fn side_table_lookup_returns_latest_entry() {
    let mut table: SideTable<PostImage> = SideTable::new();
    assert!(table.get(&"x".to_string()).is_none());
    table.insert("x".to_string(), image("x", "png"));
    table.insert("y".to_string(), image("y", "gif"));
    table.insert("x".to_string(), image("x", "jpg"));
    assert_eq!(table.get(&"x".to_string()).map(|i| i.extension.clone()), Some("jpg".to_string()));
    assert_eq!(table.get(&"y".to_string()).map(|i| i.extension.clone()), Some("gif".to_string()));
    assert!(table.get(&"z".to_string()).is_none());
}

#[test]
fn missing_image_resolves_to_dangling_node() {
    let mut body = empty_body();
    body.blocks = Some(vec![PostBlock::Image { image_id: "x".to_string() }]);
    body.image_map = Some(SideTable::new());
    let nodes = resolve(&body);
    assert_eq!(
        nodes,
        vec![ResolvedContentNode::Dangling { kind: BlockKind::Image, id: "x".to_string() }]
    );
}

#[test]
fn missing_table_resolves_to_dangling_node() {
    let mut body = empty_body();
    body.blocks = Some(vec![
        PostBlock::Image { image_id: "i".to_string() },
        PostBlock::File { file_id: "f".to_string() },
        PostBlock::Embed { embed_id: "e".to_string() },
        PostBlock::UrlEmbed { url_embed_id: "u".to_string() },
        PostBlock::Video { video_id: "v".to_string() },
    ]);
    let nodes = resolve(&body);
    assert_eq!(
        nodes,
        vec![
            ResolvedContentNode::Dangling { kind: BlockKind::Image, id: "i".to_string() },
            ResolvedContentNode::Dangling { kind: BlockKind::File, id: "f".to_string() },
            ResolvedContentNode::Dangling { kind: BlockKind::Embed, id: "e".to_string() },
            ResolvedContentNode::Dangling { kind: BlockKind::UrlEmbed, id: "u".to_string() },
            ResolvedContentNode::Dangling { kind: BlockKind::Video, id: "v".to_string() },
        ]
    );
}

#[test]
fn blocks_resolve_in_order() {
    let mut images = SideTable::new();
    images.insert("i1".to_string(), image("i1", "png"));
    images.insert("unused".to_string(), image("unused", "png"));
    let mut files = SideTable::new();
    files.insert("f1".to_string(), file("f1", "notes", "txt"));
    let mut embeds = SideTable::new();
    let embed = PostEmbed {
        id: "e1".to_string(),
        service_provider: "twitter".to_string(),
        content_id: "42".to_string(),
    };
    embeds.insert("e1".to_string(), embed.clone());
    let mut url_embeds = SideTable::new();
    let link = PostTextEmbed::Default {
        id: "u1".to_string(),
        url: "https://example.test/".to_string(),
        host: "example.test".to_string(),
    };
    url_embeds.insert("u1".to_string(), link.clone());
    let styles = Some(vec![PostBlockStyle { ty: "bold".to_string(), offset: 2, length: 3 }]);

    let mut body = empty_body();
    body.blocks = Some(vec![
        PostBlock::Header { text: "Title".to_string(), styles: None },
        PostBlock::P { text: "Hello world".to_string(), styles: styles.clone() },
        PostBlock::Image { image_id: "i1".to_string() },
        PostBlock::Image { image_id: "gone".to_string() },
        PostBlock::File { file_id: "f1".to_string() },
        PostBlock::Embed { embed_id: "e1".to_string() },
        PostBlock::UrlEmbed { url_embed_id: "u1".to_string() },
        PostBlock::Image { image_id: "i1".to_string() },
    ]);
    body.image_map = Some(images);
    body.file_map = Some(files);
    body.embed_map = Some(embeds);
    body.url_embed_map = Some(url_embeds);

    let picture = ResolvedContentNode::Image {
        mime: "image/png".to_string(),
        filename: "i1.png".to_string(),
        url: "https://example.test/i1.png".to_string(),
        width: 640,
        height: 480,
    };
    let nodes = resolve(&body);
    assert_eq!(
        nodes,
        vec![
            ResolvedContentNode::Header { text: "Title".to_string(), styles: None },
            ResolvedContentNode::Text { text: "Hello world".to_string(), styles },
            picture.clone(),
            ResolvedContentNode::Dangling { kind: BlockKind::Image, id: "gone".to_string() },
            ResolvedContentNode::File {
                mime: "text/plain".to_string(),
                filename: "notes.txt".to_string(),
                url: "https://example.test/f/f1".to_string(),
                size: 1234,
            },
            ResolvedContentNode::Embed { embed },
            ResolvedContentNode::UrlEmbed { embed: link },
            picture,
        ]
    );
}

#[test]
fn legacy_lists_follow_the_text() {
    let mut body = empty_body();
    body.text = Some("plain".to_string());
    body.images = Some(vec![image("a", "png"), image("b", "jpg")]);
    body.videos = Some(vec![PostVideo {
        service_provider: "youtube".to_string(),
        video_id: "v1".to_string(),
    }]);
    body.files = Some(vec![file("f", "song", "mp3")]);
    let nodes = resolve(&body);
    assert_eq!(nodes.len(), 5);
    assert_eq!(nodes[0], ResolvedContentNode::Text { text: "plain".to_string(), styles: None });
    assert!(matches!(&nodes[1], ResolvedContentNode::Image { filename, .. } if filename == "a.png"));
    assert!(matches!(&nodes[2], ResolvedContentNode::Image { filename, mime, .. }
        if filename == "b.jpg" && mime == "image/jpeg"));
    assert_eq!(
        nodes[3],
        ResolvedContentNode::Video {
            service_provider: "youtube".to_string(),
            video_id: "v1".to_string()
        }
    );
    assert!(matches!(&nodes[4], ResolvedContentNode::File { filename, mime, .. }
        if filename == "song.mp3" && mime == "audio/mpeg"));
}

#[test]
fn empty_body_resolves_to_nothing() {
    assert!(resolve(&empty_body()).is_empty());
}

#[test]
fn video_block_finds_listed_or_single_video() {
    let mut body = empty_body();
    body.blocks = Some(vec![
        PostBlock::Video { video_id: "single".to_string() },
        PostBlock::Video { video_id: "none".to_string() },
    ]);
    body.video = Some(PostVideo {
        service_provider: "vimeo".to_string(),
        video_id: "single".to_string(),
    });
    let nodes = resolve(&body);
    assert_eq!(
        nodes,
        vec![
            ResolvedContentNode::Video {
                service_provider: "vimeo".to_string(),
                video_id: "single".to_string()
            },
            ResolvedContentNode::Dangling { kind: BlockKind::Video, id: "none".to_string() },
        ]
    );
}

#[test]
fn body_with_text_and_blocks_is_not_well_formed() {
    let mut body = empty_body();
    assert!(body.is_well_formed());
    body.text = Some("plain".to_string());
    assert!(body.is_well_formed());
    body.blocks = Some(Vec::new());
    assert!(!body.is_well_formed());
    body.text = None;
    assert!(body.is_well_formed());
}

#[test]
fn image_blocks_follow_block_order_not_table_order() {
    let mut images = SideTable::new();
    images.insert("a".to_string(), image("a", "png"));
    images.insert("b".to_string(), image("b", "gif"));
    let mut body = empty_body();
    body.blocks = Some(vec![
        PostBlock::Image { image_id: "b".to_string() },
        PostBlock::Image { image_id: "a".to_string() },
        PostBlock::Image { image_id: "b".to_string() },
    ]);
    body.image_map = Some(images);
    let nodes = resolve(&body);
    let seen: Vec<(String, String)> = nodes
        .iter()
        .map(|node| match node {
            ResolvedContentNode::Image { filename, mime, .. } => (filename.clone(), mime.clone()),
            _ => (String::new(), String::new()),
        })
        .collect();
    assert_eq!(
        seen,
        vec![
            ("b.gif".to_string(), "image/gif".to_string()),
            ("a.png".to_string(), "image/png".to_string()),
            ("b.gif".to_string(), "image/gif".to_string()),
        ]
    );
}
