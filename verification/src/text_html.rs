//! Conversion of page text into HTML fragments.
use vstd::prelude::*;
use crate::regex_calls::{regex_captures, regex_captures_result, regex_replace_all, regex_replace_all_result};

verus! {

/// An angle bracket escaped by a backslash, with the backslashes before it.
pub const ESC_ANGLE_PATTERN: &'static str = r"(\\*)(\\[<>])";

/// Two or more blanks, or a tab.
pub const WHITESPACE_PATTERN: &'static str = r"[ \t]{2,}|\t";

/// What a run of blanks becomes: kept as it is inside a `pre` span.
pub const WHITESPACE_REPLACEMENT: &'static str = r#"<span style="white-space: pre">$0</span>"#;

/// The lines of a text split at every `\n`, as `str::split("\n")` yields them:
/// a text with `k` newlines has `k + 1` lines.
pub open spec fn lines_of(s: Seq<u8>) -> Seq<Seq<u8>>
    decreases s.len(),
{
    if s.len() == 0 {
        seq![Seq::<u8>::empty()]
    } else {
        let prev = lines_of(s.drop_last());
        if s.last() == 10u8 {
            prev.push(Seq::<u8>::empty())
        } else {
            prev.update(prev.len() - 1, prev.last().push(s.last()))
        }
    }
}

pub proof fn lemma_lines_of_nonempty(s: Seq<u8>)
    ensures
        lines_of(s).len() >= 1,
    decreases s.len(),
{
    if s.len() > 0 {
        lemma_lines_of_nonempty(s.drop_last());
    }
}

pub open spec fn p_open() -> Seq<u8> {
    seq![60u8, 112u8, 62u8]
}

pub open spec fn p_close_open() -> Seq<u8> {
    seq![60u8, 47u8, 112u8, 62u8, 60u8, 112u8, 62u8]
}

pub open spec fn p_close() -> Seq<u8> {
    seq![60u8, 47u8, 112u8, 62u8]
}

pub open spec fn br() -> Seq<u8> {
    seq![60u8, 98u8, 114u8, 62u8]
}

/// The HTML written so far and whether a paragraph has just been opened,
/// after the given lines: a line break between two lines of a paragraph,
/// an empty line closes the paragraph and opens the next.
pub open spec fn spread_state(lines: Seq<Seq<u8>>) -> (Seq<u8>, bool)
    decreases lines.len(),
{
    if lines.len() == 0 {
        (p_open(), true)
    } else {
        let (html, new_paragraph) = spread_state(lines.drop_last());
        let line = lines.last();
        let html = if !new_paragraph { html + br() } else { html };
        if line.len() == 0 {
            (html + p_close_open(), true)
        } else {
            (html + line, false)
        }
    }
}

/// The HTML of a text: empty for an empty text, otherwise its lines in
/// paragraphs as `spread_state` writes them, closed by `</p>`.
pub open spec fn spread_parts(s: Seq<u8>) -> Seq<u8> {
    if s.len() == 0 {
        Seq::empty()
    } else {
        spread_state(lines_of(s)).0 + p_close()
    }
}

/// The contents of each byte vector.
pub open spec fn views(v: Seq<Vec<u8>>) -> Seq<Seq<u8>> {
    v.map_values(|l: Vec<u8>| l@)
}

pub(crate) fn push_all(out: &mut Vec<u8>, bytes: &[u8])
    ensures
        final(out)@ == old(out)@ + bytes@,
{
    let n = bytes.len();
    for i in 0..n
        invariant
            n == bytes@.len(),
            out@ == old(out)@ + bytes@.take(i as int),
    {
        out.push(bytes[i]);
        assert(bytes@.take(i + 1) == bytes@.take(i as int).push(bytes@[i as int]));
    }
    assert(bytes@.take(n as int) == bytes@);
}

/// Splits a text at every `\n`.
pub fn split_lines(s: &[u8]) -> (lines: Vec<Vec<u8>>)
    ensures
        views(lines@) == lines_of(s@),
{
    let mut done: Vec<Vec<u8>> = Vec::new();
    let mut cur: Vec<u8> = Vec::new();
    let n = s.len();
    assert(s@.take(0) == Seq::<u8>::empty());
    for i in 0..n
        invariant
            n == s@.len(),
            views(done@).push(cur@) == lines_of(s@.take(i as int)),
    {
        let ghost prev = views(done@).push(cur@);
        assert(s@.take(i + 1).drop_last() == s@.take(i as int));
        if s[i] == 10u8 {
            let line = cur;
            done.push(line);
            cur = Vec::new();
            assert(views(done@).push(cur@) =~= prev.push(Seq::<u8>::empty()));
        } else {
            cur.push(s[i]);
            assert(views(done@).push(cur@) =~= prev.update(prev.len() - 1, prev.last().push(s@[i as int])));
        }
    }
    assert(s@.take(n as int) == s@);
    let ghost before = views(done@).push(cur@);
    done.push(cur);
    assert(views(done@) =~= before);
    done
}

/// Text to HTML paragraphs: a newline becomes `<br>`, an empty line
/// separates paragraphs `<p>..</p>`.
pub fn text_spread_parts(content_value: &[u8]) -> (html: Vec<u8>)
    ensures
        html@ == spread_parts(content_value@),
{
    if content_value.len() == 0 {
        return Vec::new();
    }
    let lines = split_lines(content_value);
    let ghost all = views(lines@);
    let mut html: Vec<u8> = Vec::new();
    push_all(&mut html, &[60u8, 112u8, 62u8]);
    let mut new_paragraph = true;
    let n = lines.len();
    assert(all.take(0) == Seq::<Seq<u8>>::empty());
    for k in 0..n
        invariant
            n == lines@.len(),
            all == views(lines@),
            (html@, new_paragraph) == spread_state(all.take(k as int)),
    {
        assert(all.take(k + 1).drop_last() == all.take(k as int));
        let line = &lines[k];
        if !new_paragraph {
            push_all(&mut html, &[60u8, 98u8, 114u8, 62u8]);
        }
        if line.len() == 0 {
            push_all(&mut html, &[60u8, 47u8, 112u8, 62u8, 60u8, 112u8, 62u8]);
            new_paragraph = true;
        } else {
            new_paragraph = false;
            push_all(&mut html, line.as_slice());
        }
    }
    assert(all.take(n as int) == all);
    push_all(&mut html, &[60u8, 47u8, 112u8, 62u8]);
    html
}


pub open spec fn backslash_lt() -> Seq<u8> {
    seq![92u8, 60u8]
}

pub open spec fn entity_lt() -> Seq<u8> {
    seq![38u8, 108u8, 116u8, 59u8]
}

pub open spec fn entity_gt() -> Seq<u8> {
    seq![38u8, 103u8, 116u8, 59u8]
}

/// The first escaped angle bracket at or after `start`: the position of the
/// backslash just before `<` or `>` and the two bytes `\<` or `\>`, when the
/// backslashes before that one are even in number (else that backslash is
/// itself escaped and `None` is the answer).
pub open spec fn esc_angle_at(hay: Seq<u8>, start: int) -> Option<(int, Seq<u8>)> {
    match regex_captures_result(ESC_ANGLE_PATTERN@, hay.subrange(start, hay.len() as int)) {
        None => None,
        Some(groups) => {
            if groups.len() > 2 && groups[2] is Some && groups[1] is Some {
                let (a_start, a_end) = groups[2].unwrap();
                let (e_start, e_end) = groups[1].unwrap();
                if (e_end - e_start) % 2 == 0 {
                    Some((a_start + start, hay.subrange(a_start + start, a_end + start)))
                } else {
                    None
                }
            } else {
                None
            }
        },
    }
}

/// Finds the first escaped angle bracket at or after `start`.
pub fn pos_esc_angle(hay: &[u8], start: usize) -> (res: Option<(usize, &[u8])>)
    requires
        start <= hay@.len(),
    ensures
        match res {
            None => esc_angle_at(hay@, start as int) is None,
            Some((pos, angle)) => esc_angle_at(hay@, start as int) == Some((pos as int, angle@))
                && start <= pos && pos + angle@.len() <= hay@.len(),
        },
{
    let rest = &hay[start..hay.len()];
    let caps = regex_captures(ESC_ANGLE_PATTERN, rest);
    let groups = match caps {
        Some(g) => g,
        None => return None,
    };
    if groups.len() <= 2 {
        return None;
    }
    let (a_start, a_end) = match groups[2] {
        Some(v) => v,
        None => return None,
    };
    let (e_start, e_end) = match groups[1] {
        Some(v) => v,
        None => return None,
    };
    assert(groups@[2] matches Some((s, e)) ==> s <= e <= rest@.len());
    assert(groups@[1] matches Some((s, e)) ==> s <= e <= rest@.len());
    if (e_end - e_start) % 2 == 0 {
        let pos = a_start + start;
        let angle = &hay[pos..a_end + start];
        assert(angle@ == hay@.subrange(a_start + start, a_end + start));
        Some((pos, angle))
    } else {
        None
    }
}

/// The first `\<` or `\>` at or after `start`, with the run of backslashes
/// before it: where the `\<` or `\>` starts, where it ends, and whether its
/// backslash escapes the bracket (the backslashes before it are even in
/// number, so they only stand for backslashes themselves).
pub open spec fn esc_angle_match(hay: Seq<u8>, start: int) -> Option<(int, int, bool)> {
    match regex_captures_result(ESC_ANGLE_PATTERN@, hay.subrange(start, hay.len() as int)) {
        None => None,
        Some(groups) => {
            if groups.len() > 2 && groups[2] is Some && groups[1] is Some {
                let (a_start, a_end) = groups[2].unwrap();
                let (e_start, e_end) = groups[1].unwrap();
                Some((a_start + start, a_end + start, (e_end - e_start) % 2 == 0))
            } else {
                None
            }
        },
    }
}

/// Finds the first `\<` or `\>` at or after `start` (see `esc_angle_match`).
fn esc_angle_scan(hay: &[u8], start: usize) -> (res: Option<(usize, usize, bool)>)
    requires
        start <= hay@.len(),
    ensures
        match res {
            None => esc_angle_match(hay@, start as int) is None,
            Some((b, e, x)) => esc_angle_match(hay@, start as int) == Some((b as int, e as int, x))
                && start <= b <= e <= hay@.len(),
        },
{
    let rest = &hay[start..hay.len()];
    let groups = match regex_captures(ESC_ANGLE_PATTERN, rest) {
        Some(g) => g,
        None => return None,
    };
    if groups.len() <= 2 {
        return None;
    }
    let (a_start, a_end) = match groups[2] {
        Some(v) => v,
        None => return None,
    };
    let (e_start, e_end) = match groups[1] {
        Some(v) => v,
        None => return None,
    };
    assert(groups@[2] matches Some((s, e)) ==> s <= e <= rest@.len());
    assert(groups@[1] matches Some((s, e)) ==> s <= e <= rest@.len());
    Some((a_start + start, a_end + start, (e_end - e_start) % 2 == 0))
}

/// The text from position `i` on with every escaped `\<`, `\>` written as
/// `&lt;`, `&gt;`. A `\<` or `\>` whose backslash is itself escaped (an odd
/// run of backslashes before it, as in `\\<`) is kept as it is, and the
/// scan goes on after it; the rest of the text is kept.
pub open spec fn angle_entity_from(s: Seq<u8>, i: int) -> Seq<u8>
    decreases s.len() - i,
{
    if s.len() <= i || i < 0 {
        Seq::empty()
    } else {
        match esc_angle_match(s, i) {
            None => s.subrange(i, s.len() as int),
            Some((bs, end, escaped)) => {
                if end <= i || bs < i || end > s.len() || bs > end {
                    s.subrange(i, s.len() as int)
                } else if escaped {
                    let angle = s.subrange(bs, end);
                    let entity = if angle == backslash_lt() { entity_lt() } else { entity_gt() };
                    s.subrange(i, bs) + entity + angle_entity_from(s, end)
                } else {
                    s.subrange(i, end) + angle_entity_from(s, end)
                }
            },
        }
    }
}

/// One step of the conversion from `i`: what comes before the match, then
/// the entity (or the match as it is), then the rest.
proof fn lemma_angle_entity_step(s: Seq<u8>, i: int, bs: int, end: int, escaped: bool)
    requires
        0 <= i < s.len(),
        esc_angle_match(s, i) == Some((bs, end, escaped)),
        i <= bs <= end <= s.len(),
        i < end,
    ensures
        escaped ==> angle_entity_from(s, i) == s.subrange(i, bs)
            + (if s.subrange(bs, end) == backslash_lt() { entity_lt() } else { entity_gt() })
            + angle_entity_from(s, end),
        !escaped ==> angle_entity_from(s, i) == s.subrange(i, end) + angle_entity_from(s, end),
{
}

/// Writes `\<` and `\>` as the entities `&lt;`, `&gt;`, leaving a bracket
/// whose backslash is itself escaped (`\\<`) as it is.
pub fn text_angle_entity(content_value: &[u8]) -> (res: Vec<u8>)
    ensures
        res@ == angle_entity_from(content_value@, 0),
{
    let mut out: Vec<u8> = Vec::new();
    let mut i_pos: usize = 0;
    let len = content_value.len();
    while i_pos < len
        invariant
            len == content_value@.len(),
            i_pos <= len,
            out@ + angle_entity_from(content_value@, i_pos as int) == angle_entity_from(content_value@, 0),
        decreases len - i_pos,
    {
        match esc_angle_scan(content_value, i_pos) {
            None => {
                push_all(&mut out, &content_value[i_pos..len]);
                assert(out@ == angle_entity_from(content_value@, 0));
                return out;
            },
            Some((bs_pos, end, escaped)) => {
                if end <= i_pos {
                    push_all(&mut out, &content_value[i_pos..len]);
                    assert(out@ == angle_entity_from(content_value@, 0));
                    return out;
                }
                let ghost old_i = i_pos;
                let ghost old_out = out@;
                let ghost cv = content_value@;
                proof {
                    lemma_angle_entity_step(cv, old_i as int, bs_pos as int, end as int, escaped);
                }
                if escaped {
                    push_all(&mut out, &content_value[i_pos..bs_pos]);
                    let angle_c = &content_value[bs_pos..end];
                    if angle_c.len() == 2 && angle_c[0] == 92u8 && angle_c[1] == 60u8 {
                        assert(angle_c@ == backslash_lt());
                        push_all(&mut out, &[38u8, 108u8, 116u8, 59u8]);
                        assert(out@ =~= old_out + (cv.subrange(old_i as int, bs_pos as int) + entity_lt()));
                    } else {
                        assert(angle_c@ != backslash_lt());
                        push_all(&mut out, &[38u8, 103u8, 116u8, 59u8]);
                        assert(out@ =~= old_out + (cv.subrange(old_i as int, bs_pos as int) + entity_gt()));
                    }
                } else {
                    push_all(&mut out, &content_value[i_pos..end]);
                }
                i_pos = end;
            },
        }
    }
    out
}

/// Puts runs of two or more blanks, and tabs, in a `white-space: pre` span.
pub fn text_whitespace_pre(hay: &[u8]) -> (res: Vec<u8>)
    ensures
        res@ == regex_replace_all_result(WHITESPACE_PATTERN@, hay@, WHITESPACE_REPLACEMENT@),
{
    regex_replace_all(WHITESPACE_PATTERN, hay, WHITESPACE_REPLACEMENT)
}

/// The text with each `<` written `\<` and each `>` written `\>`.
pub open spec fn gt_lt_escaped(s: Seq<u8>) -> Seq<u8>
    decreases s.len(),
{
    if s.len() == 0 {
        Seq::empty()
    } else {
        let c = s.last();
        let tail = if c == 60u8 || c == 62u8 { seq![92u8, c] } else { seq![c] };
        gt_lt_escaped(s.drop_last()) + tail
    }
}

/// Escapes `<` as `\<` and `>` as `\>`.
pub fn text_contents_gt_lt_escape(contents: &[u8]) -> (res: Vec<u8>)
    ensures
        res@ == gt_lt_escaped(contents@),
{
    let mut out: Vec<u8> = Vec::new();
    let n = contents.len();
    assert(contents@.take(0) == Seq::<u8>::empty());
    for i in 0..n
        invariant
            n == contents@.len(),
            out@ == gt_lt_escaped(contents@.take(i as int)),
    {
        assert(contents@.take(i + 1).drop_last() == contents@.take(i as int));
        let c = contents[i];
        if c == 60u8 || c == 62u8 {
            out.push(92u8);
        }
        out.push(c);
        assert(out@ =~= gt_lt_escaped(contents@.take(i + 1)));
    }
    assert(contents@.take(n as int) == contents@);
    out
}

/// Text as it is shown in HTML: escaped angle brackets as entities, runs of
/// blanks kept, newlines as `<br>` and empty lines between paragraphs.
pub open spec fn text_in_html_spec(value: Seq<u8>) -> Seq<u8> {
    spread_parts(
        regex_replace_all_result(WHITESPACE_PATTERN@, angle_entity_from(value, 0), WHITESPACE_REPLACEMENT@),
    )
}

/// Converts text data to be shown in HTML.
pub fn text_in_html(value: &[u8]) -> (res: Vec<u8>)
    ensures
        res@ == text_in_html_spec(value@),
{
    let value = text_angle_entity(value);
    let value = text_whitespace_pre(value.as_slice());
    text_spread_parts(value.as_slice())
}

} // verus!
