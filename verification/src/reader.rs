//! Reader mode: turning an article's HTML into structured text blocks, and the
//! approximate line offsets of its sections.
use vstd::prelude::*;
use crate::text::{
    chars_of, digit_char, digit_exec, find_exec, find_from, is_ws, lemma_find_from_props, matches_at,
    lemma_replace_all_len, lemma_skip_ws_bounds, lemma_trim_len, lowercase_of, matches_at_exec,
    replace_all, replace_exec, skip_ws, skip_ws_exec, string_of, to_lowercase_range, trim,
    trim_vec,
};

verus! {

/// One block of an article as reader mode shows it.
pub enum Block {
    Heading(u8, String),
    Paragraph(String),
    Code(String),
    Quote(String),
    ListItem(String),
}

/// A block, with its text as a sequence of characters.
pub enum BlockView {
    Heading(u8, Seq<char>),
    Paragraph(Seq<char>),
    Code(Seq<char>),
    Quote(Seq<char>),
    ListItem(Seq<char>),
}

impl View for Block {
    type V = BlockView;

    open spec fn view(&self) -> BlockView {
        match self {
            Block::Heading(l, t) => BlockView::Heading(*l, t@),
            Block::Paragraph(t) => BlockView::Paragraph(t@),
            Block::Code(t) => BlockView::Code(t@),
            Block::Quote(t) => BlockView::Quote(t@),
            Block::ListItem(t) => BlockView::ListItem(t@),
        }
    }
}

impl Clone for Block {
    fn clone(&self) -> (r: Self)
        ensures
            r@ == self@,
    {
        match self {
            Block::Heading(l, t) => Block::Heading(*l, t.clone()),
            Block::Paragraph(t) => Block::Paragraph(t.clone()),
            Block::Code(t) => Block::Code(t.clone()),
            Block::Quote(t) => Block::Quote(t.clone()),
            Block::ListItem(t) => Block::ListItem(t.clone()),
        }
    }
}

/// The views of a sequence of blocks.
pub open spec fn blocks_view(bs: Seq<Block>) -> Seq<BlockView> {
    bs.map_values(|b: Block| b@)
}

// ---------------------------------------------------------------------------
// Inline text: tags removed, common entities decoded
// ---------------------------------------------------------------------------

/// `s` with every character between a `<` and the next `>` dropped (the brackets too);
/// `in_tag` says whether the scan starts inside a tag.
pub open spec fn strip_tags(s: Seq<char>, in_tag: bool) -> Seq<char>
    decreases s.len(),
{
    if s.len() == 0 {
        s
    } else {
        let c = s[0];
        let rest = s.skip(1);
        if c == '<' {
            strip_tags(rest, true)
        } else if c == '>' {
            strip_tags(rest, false)
        } else if !in_tag {
            seq![c] + strip_tags(rest, in_tag)
        } else {
            strip_tags(rest, in_tag)
        }
    }
}

/// The number of HTML entities that inline text decodes.
pub open spec fn entity_count() -> int {
    13
}

/// The `k`-th entity and the text it decodes to, in the order they are decoded.
pub open spec fn entity(k: int) -> (Seq<char>, Seq<char>) {
    if k == 0 {
        (seq!['&', 'a', 'm', 'p', ';'], seq!['&'])
    } else if k == 1 {
        (seq!['&', 'l', 't', ';'], seq!['<'])
    } else if k == 2 {
        (seq!['&', 'g', 't', ';'], seq!['>'])
    } else if k == 3 {
        (seq!['&', 'q', 'u', 'o', 't', ';'], seq!['"'])
    } else if k == 4 {
        (seq!['&', '#', '3', '9', ';'], seq!['\''])
    } else if k == 5 {
        (seq!['&', 'n', 'b', 's', 'p', ';'], seq![' '])
    } else if k == 6 {
        (seq!['&', 'm', 'd', 'a', 's', 'h', ';'], seq!['\u{2014}'])
    } else if k == 7 {
        (seq!['&', 'n', 'd', 'a', 's', 'h', ';'], seq!['\u{2013}'])
    } else if k == 8 {
        (seq!['&', 'h', 'e', 'l', 'l', 'i', 'p', ';'], seq!['\u{2026}'])
    } else if k == 9 {
        (seq!['&', 'r', 's', 'q', 'u', 'o', ';'], seq!['\u{2019}'])
    } else if k == 10 {
        (seq!['&', 'l', 's', 'q', 'u', 'o', ';'], seq!['\u{2018}'])
    } else if k == 11 {
        (seq!['&', 'r', 'd', 'q', 'u', 'o', ';'], seq!['\u{201D}'])
    } else {
        (seq!['&', 'l', 'd', 'q', 'u', 'o', ';'], seq!['\u{201C}'])
    }
}

/// `s` after replacing entities `k`, `k + 1`, ... in turn.
pub open spec fn decode_from(s: Seq<char>, k: int) -> Seq<char>
    decreases entity_count() - k,
{
    if k < 0 || k >= entity_count() {
        s
    } else {
        decode_from(replace_all(s, entity(k).0, entity(k).1), k + 1)
    }
}

/// The text of an HTML fragment: tags stripped, then the entities decoded one after
/// the other.
pub open spec fn inline_text(s: Seq<char>) -> Seq<char> {
    decode_from(strip_tags(s, false), 0)
}

proof fn lemma_strip_tags_len(s: Seq<char>, in_tag: bool)
    ensures
        strip_tags(s, in_tag).len() <= s.len(),
    decreases s.len(),
{
    if s.len() > 0 {
        let c = s[0];
        if c == '<' {
            lemma_strip_tags_len(s.skip(1), true);
        } else if c == '>' {
            lemma_strip_tags_len(s.skip(1), false);
        } else {
            lemma_strip_tags_len(s.skip(1), in_tag);
        }
    }
}

proof fn lemma_decode_from_len(s: Seq<char>, k: int)
    ensures
        decode_from(s, k).len() <= s.len(),
    decreases entity_count() - k,
{
    if 0 <= k < entity_count() {
        lemma_replace_all_len(s, entity(k).0, entity(k).1);
        lemma_decode_from_len(replace_all(s, entity(k).0, entity(k).1), k + 1);
    }
}

proof fn lemma_inline_text_len(s: Seq<char>)
    ensures
        inline_text(s).len() <= s.len(),
{
    lemma_strip_tags_len(s, false);
    lemma_decode_from_len(strip_tags(s, false), 0);
}

fn entity_exec(k: usize) -> (r: (Vec<char>, Vec<char>))
    requires
        k < 13,
    ensures
        r.0@ == entity(k as int).0,
        r.1@ == entity(k as int).1,
        r.0@.len() > 0,
{
    let r = match k {
        0 => (vec!['&', 'a', 'm', 'p', ';'], vec!['&']),
        1 => (vec!['&', 'l', 't', ';'], vec!['<']),
        2 => (vec!['&', 'g', 't', ';'], vec!['>']),
        3 => (vec!['&', 'q', 'u', 'o', 't', ';'], vec!['"']),
        4 => (vec!['&', '#', '3', '9', ';'], vec!['\'']),
        5 => (vec!['&', 'n', 'b', 's', 'p', ';'], vec![' ']),
        6 => (vec!['&', 'm', 'd', 'a', 's', 'h', ';'], vec!['\u{2014}']),
        7 => (vec!['&', 'n', 'd', 'a', 's', 'h', ';'], vec!['\u{2013}']),
        8 => (vec!['&', 'h', 'e', 'l', 'l', 'i', 'p', ';'], vec!['\u{2026}']),
        9 => (vec!['&', 'r', 's', 'q', 'u', 'o', ';'], vec!['\u{2019}']),
        10 => (vec!['&', 'l', 's', 'q', 'u', 'o', ';'], vec!['\u{2018}']),
        11 => (vec!['&', 'r', 'd', 'q', 'u', 'o', ';'], vec!['\u{201D}']),
        _ => (vec!['&', 'l', 'd', 'q', 'u', 'o', ';'], vec!['\u{201C}']),
    };
    assert(r.0@ =~= entity(k as int).0);
    assert(r.1@ =~= entity(k as int).1);
    r
}

/// The inline text of `v[lo..hi]`.
fn inline_text_range(v: &Vec<char>, lo: usize, hi: usize) -> (r: Vec<char>)
    requires
        lo <= hi <= v@.len(),
    ensures
        r@ == inline_text(v@.subrange(lo as int, hi as int)),
{
    let ghost s = v@.subrange(lo as int, hi as int);
    let mut out: Vec<char> = Vec::new();
    let mut in_tag = false;
    let mut i = lo;
    assert(s.skip(0) =~= s);
    assert(out@ + strip_tags(s, false) =~= strip_tags(s, false));
    while i < hi
        invariant
            lo <= i <= hi <= v@.len(),
            s == v@.subrange(lo as int, hi as int),
            out@ + strip_tags(s.skip(i - lo), in_tag) == strip_tags(s, false),
        decreases hi - i,
    {
        let c = v[i];
        let ghost rest = s.skip(i - lo);
        assert(rest[0] == c);
        assert(rest.skip(1) =~= s.skip(i + 1 - lo));
        if c == '<' {
            in_tag = true;
        } else if c == '>' {
            in_tag = false;
        } else if !in_tag {
            let ghost before = out@;
            out.push(c);
            assert(before.push(c) + strip_tags(s.skip(i + 1 - lo), in_tag) =~= before + (seq![c]
                + strip_tags(rest.skip(1), in_tag)));
        }
        i = i + 1;
    }
    assert(s.skip(i - lo) =~= Seq::<char>::empty());
    assert(out@ + Seq::<char>::empty() =~= out@);
    let mut k: usize = 0;
    while k < 13
        invariant
            k <= 13,
            decode_from(out@, k as int) == inline_text(s),
        decreases 13 - k,
    {
        let (pat, rep) = entity_exec(k);
        out = replace_exec(&out, &pat, &rep);
        k = k + 1;
    }
    out
}

/// The text of an HTML fragment: tags stripped and common entities decoded.
pub fn strip_inline(s: &str) -> (r: String)
    ensures
        r@ == inline_text(s@),
{
    let v = chars_of(s);
    let t = inline_text_range(&v, 0, v.len());
    assert(v@.subrange(0, v@.len() as int) =~= v@);
    string_of(&t)
}

// ---------------------------------------------------------------------------
// Tags
// ---------------------------------------------------------------------------

/// What a (lowercased) tag name means to the parser.
pub enum TagKind {
    Heading(u8),
    Paragraph,
    Pre,
    Blockquote,
    ListItem,
    Other,
}

/// The kind of the tag named `n`.
pub open spec fn tag_kind(n: Seq<char>) -> TagKind {
    if n.len() == 2 && n[0] == 'h' && '1' <= n[1] && n[1] <= '6' {
        TagKind::Heading((n[1] as u32 - '0' as u32) as u8)
    } else if n == seq!['p'] {
        TagKind::Paragraph
    } else if n == seq!['p', 'r', 'e'] {
        TagKind::Pre
    } else if n == seq!['b', 'l', 'o', 'c', 'k', 'q', 'u', 'o', 't', 'e'] {
        TagKind::Blockquote
    } else if n == seq!['l', 'i'] {
        TagKind::ListItem
    } else {
        TagKind::Other
    }
}

/// The closing tag that ends a block of kind `k`.
pub open spec fn closing_tag(k: TagKind) -> Seq<char> {
    match k {
        TagKind::Heading(l) => seq!['<', '/', 'h', digit_char(l as nat), '>'],
        TagKind::Paragraph => seq!['<', '/', 'p', '>'],
        TagKind::Pre => seq!['<', '/', 'p', 'r', 'e', '>'],
        TagKind::Blockquote => seq!['<', '/', 'b', 'l', 'o', 'c', 'k', 'q', 'u', 'o', 't', 'e', '>'],
        _ => seq!['<', '/', 'l', 'i', '>'],
    }
}

/// The block that the content `raw` of a tag of kind `k` gives, if any.
pub open spec fn make_block(k: TagKind, raw: Seq<char>) -> Option<BlockView> {
    let t = inline_text(raw);
    let tt = trim(t);
    match k {
        TagKind::Heading(l) => if tt.len() > 0 {
            Some(BlockView::Heading(l, tt))
        } else {
            None
        },
        TagKind::Paragraph => if tt.len() > 0 {
            Some(BlockView::Paragraph(tt))
        } else {
            None
        },
        TagKind::Pre => if tt.len() > 0 {
            Some(BlockView::Code(t))
        } else {
            None
        },
        TagKind::Blockquote => if tt.len() > 0 {
            Some(BlockView::Quote(tt))
        } else {
            None
        },
        TagKind::ListItem => if tt.len() > 0 {
            Some(BlockView::ListItem(tt))
        } else {
            None
        },
        TagKind::Other => None,
    }
}

/// A character that ends a tag's name.
pub open spec fn is_name_sep(c: char) -> bool {
    c == ' ' || c == '\t' || c == '\n' || c == '\r'
}

/// First index in `[i, end)` holding a name separator, or `end`.
pub open spec fn name_end(s: Seq<char>, i: int, end: int) -> int
    decreases end - i,
{
    if i >= end {
        end
    } else if is_name_sep(s[i]) {
        i
    } else {
        name_end(s, i + 1, end)
    }
}

proof fn lemma_name_end_bounds(s: Seq<char>, i: int, end: int)
    requires
        i <= end,
    ensures
        i <= name_end(s, i, end) <= end,
    decreases end - i,
{
    if i < end && !is_name_sep(s[i]) {
        lemma_name_end_bounds(s, i + 1, end);
    }
}

// ---------------------------------------------------------------------------
// The parse
// ---------------------------------------------------------------------------

/// The blocks of `s` from position `pos` on: white space is skipped; text outside tags
/// is skipped up to the next `<`; closing tags, comments, doctypes and self-closing tags
/// are skipped; a heading, paragraph, `pre`, `blockquote` or `li` tag takes everything
/// up to its closing tag (when there is one) as its content; any other tag is skipped
/// and its content parsed. The parse stops at a `<` with no `>` after it.
pub open spec fn parse_from(s: Seq<char>, pos: int) -> Seq<BlockView>
    decreases s.len() - pos,
{
    if pos < 0 || pos >= s.len() {
        Seq::empty()
    } else {
        let p = skip_ws(s, pos);
        proof {
            lemma_skip_ws_bounds(s, pos);
        }
        if p >= s.len() {
            Seq::empty()
        } else if s[p] != '<' {
            proof {
                lemma_find_from_props(s, p, seq!['<']);
            }
            match find_from(s, p, seq!['<']) {
                Some(q) => if q > pos {
                    parse_from(s, q)
                } else {
                    Seq::empty()
                },
                None => Seq::empty(),
            }
        } else {
            proof {
                lemma_find_from_props(s, p, seq!['>']);
            }
            match find_from(s, p, seq!['>']) {
                None => Seq::empty(),
                Some(te) => {
                    let inner = s.subrange(p + 1, te);
                    let name = lowercase_of(s.subrange(p + 1, name_end(s, p + 1, te)));
                    let cs = te + 1;
                    if name.len() > 0 && (name[0] == '/' || name[0] == '!') {
                        parse_from(s, cs)
                    } else if inner.len() > 0 && inner.last() == '/' {
                        parse_from(s, cs)
                    } else {
                        let kind = tag_kind(name);
                        if kind is Other {
                            parse_from(s, cs)
                        } else {
                            let close = closing_tag(kind);
                            proof {
                                lemma_find_from_props(s, cs, close);
                            }
                            match find_from(s, cs, close) {
                                None => parse_from(s, cs),
                                Some(k) => {
                                    let next = k + close.len();
                                    match make_block(kind, s.subrange(cs, k)) {
                                        Some(b) => seq![b] + parse_from(s, next),
                                        None => parse_from(s, next),
                                    }
                                },
                            }
                        }
                    }
                },
            }
        }
    }
}

// ---------------------------------------------------------------------------
// Section offsets
// ---------------------------------------------------------------------------

/// Bytes that `c` takes in UTF-8 (as `char::len_utf8`).
pub open spec fn char_utf8_len(c: char) -> nat {
    let u = c as u32;
    if u < 0x80 {
        1
    } else if u < 0x800 {
        2
    } else if u < 0x10000 {
        3
    } else {
        4
    }
}

/// Bytes that `s` takes in UTF-8 (as `str::len`).
pub open spec fn utf8_len(s: Seq<char>) -> nat
    decreases s.len(),
{
    if s.len() == 0 {
        0
    } else {
        utf8_len(s.drop_last()) + char_utf8_len(s.last())
    }
}

/// The number of newline characters in `s`.
pub open spec fn newlines(s: Seq<char>) -> nat
    decreases s.len(),
{
    if s.len() == 0 {
        0
    } else {
        newlines(s.drop_last()) + if s.last() == '\n' {
            1nat
        } else {
            0nat
        }
    }
}

/// The number of lines of `s` (as `str::lines().count()`): a final line without a
/// newline counts, an empty string has none.
pub open spec fn line_count(s: Seq<char>) -> nat {
    newlines(s) + if s.len() > 0 && s.last() != '\n' {
        1nat
    } else {
        0nat
    }
}

/// The lines a block takes in the estimate: a heading two, a paragraph one per hundred
/// bytes (at least one) and a blank, code and quotes their lines and a blank, a list item
/// one.
pub open spec fn block_lines(b: BlockView) -> nat {
    match b {
        BlockView::Heading(_, _) => 2,
        BlockView::Paragraph(t) => (if utf8_len(t) / 100 > 1 {
            utf8_len(t) / 100
        } else {
            1nat
        }) + 1,
        BlockView::Code(t) => line_count(t) + 1,
        BlockView::Quote(t) => line_count(t) + 1,
        BlockView::ListItem(_) => 1,
    }
}

/// The estimated number of lines the blocks take.
pub open spec fn total_lines(bs: Seq<BlockView>) -> nat
    decreases bs.len(),
{
    if bs.len() == 0 {
        0
    } else {
        total_lines(bs.drop_last()) + block_lines(bs.last())
    }
}

/// The estimated line at which each heading of `bs` starts, in order.
pub open spec fn section_offsets(bs: Seq<BlockView>) -> Seq<int>
    decreases bs.len(),
{
    if bs.len() == 0 {
        Seq::empty()
    } else if bs.last() is Heading {
        section_offsets(bs.drop_last()).push(total_lines(bs.drop_last()) as int)
    } else {
        section_offsets(bs.drop_last())
    }
}

proof fn lemma_utf8_len_bound(s: Seq<char>)
    ensures
        utf8_len(s) <= 4 * s.len(),
    decreases s.len(),
{
    if s.len() > 0 {
        lemma_utf8_len_bound(s.drop_last());
    }
}

proof fn lemma_line_count_bound(s: Seq<char>)
    ensures
        line_count(s) <= s.len(),
{
    lemma_newlines_bound(s);
    if s.len() > 0 && s.last() != '\n' {
        lemma_newlines_drop_last(s);
        lemma_newlines_bound(s.drop_last());
    }
}

proof fn lemma_newlines_bound(s: Seq<char>)
    ensures
        newlines(s) <= s.len(),
    decreases s.len(),
{
    if s.len() > 0 {
        lemma_newlines_bound(s.drop_last());
    }
}

proof fn lemma_newlines_drop_last(s: Seq<char>)
    requires
        s.len() > 0,
        s.last() != '\n',
    ensures
        newlines(s) == newlines(s.drop_last()),
{
}

/// The text of a block.
pub open spec fn block_text(b: BlockView) -> Seq<char> {
    match b {
        BlockView::Heading(_, t) => t,
        BlockView::Paragraph(t) => t,
        BlockView::Code(t) => t,
        BlockView::Quote(t) => t,
        BlockView::ListItem(t) => t,
    }
}

/// The line offsets as integers.
pub open spec fn offsets_view(v: Seq<usize>) -> Seq<int> {
    v.map_values(|o: usize| o as int)
}

/// A block made from the content `raw` has no more text than `raw`, and a paragraph's
/// text is never empty.
proof fn lemma_made_block(k: TagKind, raw: Seq<char>, b: BlockView)
    requires
        make_block(k, raw) == Some(b),
    ensures
        block_text(b).len() <= raw.len(),
        b is Paragraph ==> block_text(b).len() > 0,
{
    lemma_inline_text_len(raw);
    lemma_trim_len(inline_text(raw));
}

/// A block's line estimate is at most its text's length plus one, or two for a heading.
proof fn lemma_block_lines_bound(b: BlockView)
    ensures
        match b {
            BlockView::Heading(_, _) => block_lines(b) == 2,
            BlockView::Paragraph(t) => t.len() > 0 ==> block_lines(b) <= t.len() + 1,
            BlockView::Code(t) => block_lines(b) <= t.len() + 1,
            BlockView::Quote(t) => block_lines(b) <= t.len() + 1,
            BlockView::ListItem(_) => block_lines(b) == 1,
        },
{
    match b {
        BlockView::Paragraph(t) => {
            lemma_utf8_len_bound(t);
            let u = utf8_len(t);
            let n = t.len();
            if n > 0 {
                assert(u / 100 <= n) by (nonlinear_arith)
                    requires
                        u <= 4 * n,
                ;
            }
        },
        BlockView::Code(t) => lemma_line_count_bound(t),
        BlockView::Quote(t) => lemma_line_count_bound(t),
        _ => {},
    }
}

/// Bytes `c` takes in UTF-8.
pub(crate) fn char_utf8_len_exec(c: char) -> (r: usize)
    ensures
        r == char_utf8_len(c),
{
    let u = c as u32;
    if u < 0x80 {
        1
    } else if u < 0x800 {
        2
    } else if u < 0x10000 {
        3
    } else {
        4
    }
}

/// Bytes `v` takes in UTF-8.
fn utf8_len_exec(v: &Vec<char>) -> (r: u128)
    ensures
        r == utf8_len(v@),
{
    let mut n: u128 = 0;
    let mut i: usize = 0;
    let _len = v.len();
    while i < v.len()
        invariant
            i <= v@.len(),
            v@.len() <= usize::MAX,
            n == utf8_len(v@.take(i as int)),
        decreases v@.len() - i,
    {
        proof {
            assert(v@.take(i + 1).drop_last() =~= v@.take(i as int));
            lemma_utf8_len_bound(v@.take(i as int));
        }
        n = n + char_utf8_len_exec(v[i]) as u128;
        i = i + 1;
    }
    assert(v@.take(v@.len() as int) =~= v@);
    n
}

/// The lines of `v` (as `str::lines().count()`).
fn line_count_exec(v: &Vec<char>) -> (r: usize)
    ensures
        r == line_count(v@),
{
    let mut n: usize = 0;
    let mut i: usize = 0;
    while i < v.len()
        invariant
            i <= v@.len(),
            n == newlines(v@.take(i as int)),
        decreases v@.len() - i,
    {
        proof {
            assert(v@.take(i + 1).drop_last() =~= v@.take(i as int));
            lemma_newlines_bound(v@.take(i as int));
        }
        if v[i] == '\n' {
            n = n + 1;
        }
        i = i + 1;
    }
    assert(v@.take(v@.len() as int) =~= v@);
    proof {
        if v@.len() > 0 && v@.last() != '\n' {
            lemma_newlines_drop_last(v@);
            lemma_newlines_bound(v@.drop_last());
        }
    }
    if v.len() > 0 && v[v.len() - 1] != '\n' {
        n + 1
    } else {
        n
    }
}

/// The kind of the tag named `n`.
fn tag_kind_exec(n: &Vec<char>) -> (r: TagKind)
    ensures
        r == tag_kind(n@),
{
    let len = n.len();
    if len == 2 && n[0] == 'h' && '1' <= n[1] && n[1] <= '6' {
        return TagKind::Heading((n[1] as u32 - '0' as u32) as u8);
    }
    let p = vec!['p'];
    let pre = vec!['p', 'r', 'e'];
    let bq = vec!['b', 'l', 'o', 'c', 'k', 'q', 'u', 'o', 't', 'e'];
    let li = vec!['l', 'i'];
    proof {
        assert(p@ =~= seq!['p']);
        assert(pre@ =~= seq!['p', 'r', 'e']);
        assert(bq@ =~= seq!['b', 'l', 'o', 'c', 'k', 'q', 'u', 'o', 't', 'e']);
        assert(li@ =~= seq!['l', 'i']);
    }
    if eq_chars(n, &p) {
        TagKind::Paragraph
    } else if eq_chars(n, &pre) {
        TagKind::Pre
    } else if eq_chars(n, &bq) {
        TagKind::Blockquote
    } else if eq_chars(n, &li) {
        TagKind::ListItem
    } else {
        TagKind::Other
    }
}

/// Whether `a` and `b` hold the same characters.
fn eq_chars(a: &Vec<char>, b: &Vec<char>) -> (r: bool)
    ensures
        r == (a@ == b@),
{
    if a.len() != b.len() {
        return false;
    }
    let r = matches_at_exec(a, 0, b);
    proof {
        if r {
            assert(a@.subrange(0, b@.len() as int) =~= a@);
        } else {
            assert(a@.subrange(0, b@.len() as int) =~= a@);
        }
    }
    r
}

/// The closing tag for a block of kind `k` (not `Other`).
fn closing_tag_exec(k: &TagKind) -> (r: Vec<char>)
    requires
        k is Heading ==> 1 <= k->Heading_0 <= 6,
    ensures
        r@ == closing_tag(*k),
        r@.len() >= 4,
{
    let r = match k {
        TagKind::Heading(l) => vec!['<', '/', 'h', digit_exec(*l as u64), '>'],
        TagKind::Paragraph => vec!['<', '/', 'p', '>'],
        TagKind::Pre => vec!['<', '/', 'p', 'r', 'e', '>'],
        TagKind::Blockquote => vec!['<', '/', 'b', 'l', 'o', 'c', 'k', 'q', 'u', 'o', 't', 'e', '>'],
        _ => vec!['<', '/', 'l', 'i', '>'],
    };
    assert(r@ =~= closing_tag(*k));
    r
}

/// The block that the content `v[lo..hi]` of a tag of kind `k` gives, if any.
fn make_block_exec(k: &TagKind, v: &Vec<char>, lo: usize, hi: usize) -> (r: Option<Block>)
    requires
        lo <= hi <= v@.len(),
    ensures
        r matches Some(b) ==> make_block(*k, v@.subrange(lo as int, hi as int)) == Some(b@),
        r is None ==> make_block(*k, v@.subrange(lo as int, hi as int)) is None,
{
    let t = inline_text_range(v, lo, hi);
    let tt = trim_vec(&t);
    if tt.len() == 0 {
        return None;
    }
    match k {
        TagKind::Heading(l) => Some(Block::Heading(*l, string_of(&tt))),
        TagKind::Paragraph => Some(Block::Paragraph(string_of(&tt))),
        TagKind::Pre => Some(Block::Code(string_of(&t))),
        TagKind::Blockquote => Some(Block::Quote(string_of(&tt))),
        TagKind::ListItem => Some(Block::ListItem(string_of(&tt))),
        TagKind::Other => None,
    }
}

/// The lines block `b` takes in the estimate.
fn block_lines_exec(b: &Block, text: &Vec<char>) -> (r: usize)
    requires
        block_text(b@) == text@,
        b@ is Paragraph ==> text@.len() > 0,
        text@.len() + 2 <= usize::MAX,
    ensures
        r == block_lines(b@),
{
    proof {
        lemma_line_count_bound(text@);
        lemma_block_lines_bound(b@);
    }
    match b {
        Block::Heading(_, _) => 2,
        Block::Paragraph(_) => {
            let n = utf8_len_exec(text) / 100;
            let m: usize = if n > 1 {
                n as usize
            } else {
                1
            };
            m + 1
        },
        Block::Code(_) => line_count_exec(text) + 1,
        Block::Quote(_) => line_count_exec(text) + 1,
        Block::ListItem(_) => 1,
    }
}

/// The blocks of an article's HTML, and the estimated line at which each heading
/// starts (for jumping between sections).
pub fn parse_html(html: &str) -> (r: (Vec<Block>, Vec<usize>))
    ensures
        blocks_view(r.0@) == parse_from(html@, 0),
        offsets_view(r.1@) == section_offsets(parse_from(html@, 0)),
        forall|k: int| 0 <= k < r.1@.len() ==> r.1@[k] + 2 <= html@.len(),
{
    let s = chars_of(html);
    let ghost sv = s@;
    let len = s.len();
    let mut blocks: Vec<Block> = Vec::new();
    let mut offsets: Vec<usize> = Vec::new();
    let mut line: usize = 0;
    let mut pos: usize = 0;
    let lt = vec!['<'];
    let gt = vec!['>'];
    assert(lt@ =~= seq!['<']);
    assert(gt@ =~= seq!['>']);
    assert(blocks_view(blocks@) + parse_from(sv, 0) =~= parse_from(sv, 0));
    while pos < len
        invariant
            sv == s@,
            len == s@.len(),
            lt@ == seq!['<'],
            gt@ == seq!['>'],
            pos <= len,
            blocks_view(blocks@) + parse_from(sv, pos as int) == parse_from(sv, 0),
            line as nat == total_lines(blocks_view(blocks@)),
            line <= pos,
            offsets_view(offsets@) == section_offsets(blocks_view(blocks@)),
            forall|k: int| 0 <= k < offsets@.len() ==> offsets@[k] + 2 <= pos,
        decreases len - pos,
    {
        let ghost old_pos = pos as int;
        let ghost bv = blocks_view(blocks@);
        proof {
            lemma_skip_ws_bounds(sv, pos as int);
        }
        let p = skip_ws_exec(&s, pos);
        if p >= len {
            assert(parse_from(sv, pos as int) =~= Seq::<BlockView>::empty());
            assert(bv + Seq::<BlockView>::empty() =~= bv);
            pos = len;
            continue;
        }
        if s[p] != '<' {
            proof {
                lemma_find_from_props(sv, p as int, seq!['<']);
            }
            match find_exec(&s, p, &lt) {
                Some(q) => {
                    assert(sv.subrange(q as int, q + 1)[0] == sv[q as int]);
                    pos = q;
                },
                None => {
                    assert(bv + Seq::<BlockView>::empty() =~= bv);
                    pos = len;
                },
            }
            continue;
        }
        proof {
            lemma_find_from_props(sv, p as int, seq!['>']);
        }
        let tag_end = match find_exec(&s, p, &gt) {
            Some(i) => i,
            None => {
                assert(bv + Seq::<BlockView>::empty() =~= bv);
                pos = len;
                continue;
            },
        };
        // the `<` at `p` is not a `>`, so the tag ends after it
        assert(tag_end > p) by {
            if tag_end == p {
                assert(sv.subrange(p as int, p + 1)[0] == sv[p as int]);
            }
        }
        let ne = name_end_exec(&s, p + 1, tag_end);
        let name = to_lowercase_range(&s, p + 1, ne);
        let cs = tag_end + 1;
        if name.len() > 0 && (name[0] == '/' || name[0] == '!') {
            pos = cs;
            continue;
        }
        if tag_end > p + 1 && s[tag_end - 1] == '/' {
            pos = cs;
            continue;
        }
        let kind = tag_kind_exec(&name);
        if let TagKind::Other = kind {
            pos = cs;
            continue;
        }
        let close = closing_tag_exec(&kind);
        proof {
            lemma_find_from_props(sv, cs as int, close@);
        }
        match find_exec(&s, cs, &close) {
            None => {
                pos = cs;
            },
            Some(k) => {
                let next = k + close.len();
                let ghost raw = sv.subrange(cs as int, k as int);
                proof {
                    lemma_inline_text_len(raw);
                    lemma_trim_len(inline_text(raw));
                }
                match make_block_exec(&kind, &s, cs, k) {
                    Some(b) => {
                        let text = match &b {
                            Block::Heading(_, t) => chars_of(t.as_str()),
                            Block::Paragraph(t) => chars_of(t.as_str()),
                            Block::Code(t) => chars_of(t.as_str()),
                            Block::Quote(t) => chars_of(t.as_str()),
                            Block::ListItem(t) => chars_of(t.as_str()),
                        };
                        proof {
                            lemma_block_lines_bound(b@);
                            lemma_made_block(kind, raw, b@);
                        }
                        let w = block_lines_exec(&b, &text);
                        let ghost offs0 = offsets@;
                        if let Block::Heading(_, _) = b {
                            offsets.push(line);
                        }
                        proof {
                            if b@ is Heading {
                                assert(offsets_view(offsets@) =~= offsets_view(offs0).push(
                                    line as int,
                                ));
                            }
                        }
                        line = line + w;
                        blocks.push(b);
                        proof {
                            let nbv = blocks_view(blocks@);
                            assert(nbv =~= bv.push(b@));
                            assert(nbv.drop_last() =~= bv);
                            assert(bv + parse_from(sv, old_pos) =~= nbv + parse_from(sv, next as int));
                        }
                        pos = next;
                    },
                    None => {
                        pos = next;
                    },
                }
            },
        }
    }
    assert(parse_from(sv, len as int) =~= Seq::<BlockView>::empty());
    assert(blocks_view(blocks@) + Seq::<BlockView>::empty() =~= blocks_view(blocks@));
    (blocks, offsets)
}

/// First index in `[i, end)` holding a name separator, or `end`.
fn name_end_exec(v: &Vec<char>, i: usize, end: usize) -> (r: usize)
    requires
        i <= end <= v@.len(),
    ensures
        r == name_end(v@, i as int, end as int),
        i <= r <= end,
{
    let mut k = i;
    while k < end && !(v[k] == ' ' || v[k] == '\t' || v[k] == '\n' || v[k] == '\r')
        invariant
            i <= k <= end <= v@.len(),
            name_end(v@, k as int, end as int) == name_end(v@, i as int, end as int),
        decreases end - k,
    {
        k = k + 1;
    }
    k
}


// ---------------------------------------------------------------------------
// Laws of the parse
// ---------------------------------------------------------------------------

/// The first occurrence of `pat` from `from` on is at `j` when it occurs there and nowhere
/// in between.
proof fn lemma_find_first(h: Seq<char>, from: int, j: int, pat: Seq<char>)
    requires
        0 <= from <= j,
        matches_at(h, j, pat),
        forall|k: int| from <= k < j ==> !matches_at(h, k, pat),
    ensures
        find_from(h, from, pat) == Some(j),
{
    lemma_find_from_props(h, from, pat);
    if let Some(i) = find_from(h, from, pat) {
        if i < j {
            assert(!matches_at(h, i, pat));
        } else if i > j {
            assert(!matches_at(h, j, pat));
        }
    }
}

/// Every heading level is a heading tag: `hL` for `L` from 1 to 6 names a heading of
/// level `L`, and `p`, `pre`, `blockquote` and `li` name the other kinds of block.
pub proof fn law_tag_kinds(l: u8)
    requires
        1 <= l <= 6,
    ensures
        tag_kind(seq!['h', digit_char(l as nat)]) == TagKind::Heading(l),
        tag_kind(seq!['p']) == TagKind::Paragraph,
        tag_kind(seq!['p', 'r', 'e']) == TagKind::Pre,
        tag_kind(seq!['b', 'l', 'o', 'c', 'k', 'q', 'u', 'o', 't', 'e']) == TagKind::Blockquote,
        tag_kind(seq!['l', 'i']) == TagKind::ListItem,
{
    let n = seq!['h', digit_char(l as nat)];
    assert(n != seq!['p'] && n != seq!['l', 'i']) by {
        assert(n[0] == 'h');
    }
    assert(seq!['p', 'r', 'e'].len() == 3);
    assert(seq!['l', 'i'] != seq!['p']);
    assert(seq!['p', 'r', 'e'] != seq!['p']);
    assert(seq!['b', 'l', 'o', 'c', 'k', 'q', 'u', 'o', 't', 'e'] != seq!['p', 'r', 'e']);
    assert(seq!['b', 'l', 'o', 'c', 'k', 'q', 'u', 'o', 't', 'e'] != seq!['p']);
    assert(seq!['l', 'i'] != seq!['p', 'r', 'e']);
    assert(seq!['l', 'i'] != seq!['b', 'l', 'o', 'c', 'k', 'q', 'u', 'o', 't', 'e']);
}

/// A heading of any level from 1 to 6: `<hL>t</hL>`, with no tag inside `t` and some text
/// that is not white space, parses to exactly one heading block of level `L` holding the
/// trimmed text of `t`, and its section starts at line 0. Tag names are lowercased
/// before they are read, so this holds wherever lowercasing leaves `hL` as it is.
pub proof fn law_heading_levels(l: u8, t: Seq<char>)
    requires
        1 <= l <= 6,
        forall|k: int| 0 <= k < t.len() ==> t[k] != '<',
        trim(inline_text(t)).len() > 0,
        lowercase_of(seq!['h', digit_char(l as nat)]) == seq!['h', digit_char(l as nat)],
    ensures
        parse_from(
            seq!['<', 'h', digit_char(l as nat), '>'] + t + seq!['<', '/', 'h', digit_char(l as nat), '>'],
            0,
        ) == seq![BlockView::Heading(l, trim(inline_text(t)))],
        section_offsets(
            parse_from(
                seq!['<', 'h', digit_char(l as nat), '>'] + t + seq!['<', '/', 'h', digit_char(l as nat), '>'],
                0,
            ),
        ) == seq![0int],
{
    let d = digit_char(l as nat);
    let open = seq!['<', 'h', d, '>'];
    let close = seq!['<', '/', 'h', d, '>'];
    let s = open + t + close;
    let n = t.len() as int;
    assert(s.len() == n + 9);
    assert(s[0] == '<' && s[1] == 'h' && s[2] == d && s[3] == '>');
    assert(forall|k: int| 0 <= k < n ==> s[4 + k] == t[k]);
    assert(forall|k: int| 0 <= k < 5 ==> s[4 + n + k] == close[k]);
    assert('1' <= d && d <= '6');
    // the opening tag
    assert(!is_ws(s[0]));
    assert(skip_ws(s, 0) == 0);
    assert(matches_at(s, 3, seq!['>'])) by {
        assert(s.subrange(3, 4) =~= seq!['>']);
    }
    assert forall|k: int| 0 <= k < 3 implies !matches_at(s, k, seq!['>']) by {
        assert(s.subrange(k, k + 1)[0] == s[k]);
    }
    lemma_find_first(s, 0, 3, seq!['>']);
    assert(name_end(s, 3, 3) == 3);
    assert(!is_name_sep(s[2]));
    assert(name_end(s, 2, 3) == 3);
    assert(!is_name_sep(s[1]));
    assert(name_end(s, 1, 3) == 3);
    assert(s.subrange(1, 3) =~= seq!['h', d]);
    let name = lowercase_of(s.subrange(1, 3));
    assert(name == seq!['h', d]);
    assert(name[0] == 'h');
    let inner = s.subrange(1, 3);
    assert(inner.last() == d);
    assert(tag_kind(name) == TagKind::Heading(l)) by {
        if l == 1 {} else if l == 2 {} else if l == 3 {} else if l == 4 {} else if l == 5 {} else {}
    }
    assert(closing_tag(TagKind::Heading(l)) == close);
    // the closing tag
    assert(matches_at(s, 4 + n, close)) by {
        assert(s.subrange(4 + n, 9 + n) =~= close);
    }
    assert forall|k: int| 4 <= k < 4 + n implies !matches_at(s, k, close) by {
        assert(s[k] == t[k - 4]);
        if k + 5 <= s.len() {
            assert(s.subrange(k, k + 5)[0] == s[k]);
        }
    }
    lemma_find_first(s, 4, 4 + n, close);
    assert(s.subrange(4, 4 + n) =~= t);
    assert(make_block(TagKind::Heading(l), t) == Some(BlockView::Heading(l, trim(inline_text(t)))));
    assert(parse_from(s, 9 + n) == Seq::<BlockView>::empty());
    let b = BlockView::Heading(l, trim(inline_text(t)));
    assert(parse_from(s, 0) == seq![b] + Seq::<BlockView>::empty());
    assert(seq![b] + Seq::<BlockView>::empty() =~= seq![b]);
    assert(seq![b].drop_last() =~= Seq::<BlockView>::empty());
    assert(seq![b].last() == b);
    assert(section_offsets(Seq::<BlockView>::empty()) == Seq::<int>::empty());
    assert(total_lines(Seq::<BlockView>::empty()) == 0);
    assert(section_offsets(seq![b]) == Seq::<int>::empty().push(0int));
    assert(section_offsets(seq![b]) =~= seq![0int]);
}

} // verus!
