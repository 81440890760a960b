use hnr::reader::{parse_html, strip_inline, Block};

fn text_of(b: &Block) -> &str {
    match b {
        Block::Heading(_, t) | Block::Paragraph(t) | Block::Code(t) | Block::Quote(t) | Block::ListItem(t) => t,
    }
}

#[test]
fn strip_inline_removes_tags_and_decodes_entities() {
    assert_eq!(strip_inline("<b>Hi</b> &amp; bye"), "Hi & bye");
    assert_eq!(strip_inline("a &lt;b&gt; &quot;c&quot; &#39;d&#39;"), "a <b> \"c\" 'd'");
    assert_eq!(strip_inline("x&nbsp;y&mdash;z&ndash;w&hellip;"), "x y\u{2014}z\u{2013}w\u{2026}");
    assert_eq!(strip_inline("&lsquo;q&rsquo; &ldquo;r&rdquo;"), "\u{2018}q\u{2019} \u{201C}r\u{201D}");
    // Entities are decoded one after the other, so `&amp;lt;` becomes `<`.
    assert_eq!(strip_inline("&amp;lt;"), "<");
    assert_eq!(strip_inline("<a href='x'>link"), "link");
}

#[test]
fn parse_html_finds_each_kind_of_block() {
    let html = "<html><body><h2>Intro</h2><p>Hello <i>there</i>.</p><pre>fn main() {}\nx</pre>\
                <blockquote> wise </blockquote><ul><li>one</li><li> </li></ul></body></html>";
    let (blocks, offsets) = parse_html(html);
    assert_eq!(blocks.len(), 5);
    assert!(matches!(&blocks[0], Block::Heading(2, t) if t == "Intro"));
    assert!(matches!(&blocks[1], Block::Paragraph(t) if t == "Hello there."));
    assert!(matches!(&blocks[2], Block::Code(t) if t == "fn main() {}\nx"));
    assert!(matches!(&blocks[3], Block::Quote(t) if t == "wise"));
    assert!(matches!(&blocks[4], Block::ListItem(t) if t == "one"));
    assert_eq!(offsets, vec![0]);
}

#[test]
fn parse_html_section_offsets_count_lines() {
    let long = "a".repeat(250);
    let html = format!("<h1>A</h1><p>{long}</p><pre>x\ny\nz</pre><li>i</li><h3>B</h3><p>short</p><h1>C</h1>");
    let (blocks, offsets) = parse_html(&html);
    assert_eq!(blocks.len(), 7);
    // A: 0, +2; paragraph of 250 chars: 2 lines + 1; code of 3 lines: +4; item: +1
    assert_eq!(offsets, vec![0, 10, 14]);
    assert_eq!(text_of(&blocks[4]), "B");
}

#[test]
fn parse_html_skips_closing_comments_and_self_closing_tags() {
    let (blocks, offsets) = parse_html("<!-- note --><br/></div>plain text<p>kept</p>");
    assert_eq!(blocks.len(), 1);
    assert!(matches!(&blocks[0], Block::Paragraph(t) if t == "kept"));
    assert!(offsets.is_empty());
}

#[test]
fn parse_html_unclosed_block_reads_on() {
    let (blocks, _) = parse_html("<p>open <p>inner</p>");
    assert_eq!(blocks.len(), 1);
    assert!(matches!(&blocks[0], Block::Paragraph(t) if t == "open inner"));
    let (blocks, _) = parse_html("<p>never closed");
    assert!(blocks.is_empty());
}

#[test]
fn parse_html_heading_tags_are_case_insensitive() {
    let (blocks, offsets) = parse_html("<H2 class=\"x\">Title</h2><P>body</p>");
    assert_eq!(blocks.len(), 2);
    assert!(matches!(&blocks[0], Block::Heading(2, t) if t == "Title"));
    assert_eq!(offsets, vec![0]);
}

#[test]
fn parse_html_empty_and_tagless_input() {
    let (blocks, offsets) = parse_html("");
    assert!(blocks.is_empty() && offsets.is_empty());
    let (blocks, _) = parse_html("   just words   ");
    assert!(blocks.is_empty());
    let (blocks, _) = parse_html("<p");
    assert!(blocks.is_empty());
}
