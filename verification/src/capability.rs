//! The capability matcher: exact membership of a tag in a declared list.
//!
//! An agent declares its capabilities as one compact text, a bracketed list
//! of quoted tags separated by commas, such as `["scraping","coding"]`. A task
//! names one required tag. The matcher reads the list token by token and
//! compares each whole token with the required tag, so that a declared
//! `"decoding"` never satisfies a requirement of `"coding"`.

use vstd::prelude::*;
use vstd::utf8::encode_utf8;

verus! {

/// The byte `[` that opens a list.
pub const LIST_OPEN: u8 = 91;

/// The byte `]` that closes a list.
pub const LIST_CLOSE: u8 = 93;

/// The byte `"` that opens and closes a token.
pub const QUOTE: u8 = 34;

/// The byte `\` that makes the byte after it part of the token.
pub const ESCAPE: u8 = 92;

/// The byte `,` that separates two tokens.
pub const SEPARATOR: u8 = 44;

/// Blank bytes: space, tab, line feed, form feed and carriage return.
pub open spec fn is_blank(byte: u8) -> bool {
    byte == 32 || byte == 9 || byte == 10 || byte == 12 || byte == 13
}

/// The first position at or after `from` that holds no blank byte; the
/// length of `text` where only blanks follow.
pub open spec fn skip_blanks(text: Seq<u8>, from: int) -> int
    decreases text.len() - from,
{
    if 0 <= from < text.len() && is_blank(text[from]) {
        skip_blanks(text, from + 1)
    } else {
        from
    }
}

/// The position of the quote that closes the token whose first byte stands at
/// `from`; the length of `text` where the token is never closed. An escape
/// byte takes the byte after it into the token, a quote included.
pub open spec fn token_end(text: Seq<u8>, from: int) -> int
    decreases text.len() - from,
{
    if from < 0 || from >= text.len() {
        text.len() as int
    } else if text[from] == QUOTE {
        from
    } else if text[from] == ESCAPE && from + 1 < text.len() {
        token_end(text, from + 2)
    } else {
        token_end(text, from + 1)
    }
}

/// The bytes of the token whose first byte stands at `from`, with each escape
/// byte dropped and the byte after it kept as it is.
pub open spec fn token_text(text: Seq<u8>, from: int) -> Seq<u8>
    decreases text.len() - from,
{
    if from < 0 || from >= text.len() || text[from] == QUOTE {
        Seq::empty()
    } else if text[from] == ESCAPE && from + 1 < text.len() {
        seq![text[from + 1]] + token_text(text, from + 2)
    } else {
        seq![text[from]] + token_text(text, from + 1)
    }
}

/// `skip_blanks` never moves backwards and never past the end.
pub proof fn lemma_skip_blanks_bounds(text: Seq<u8>, from: int)
    requires
        0 <= from <= text.len(),
    ensures
        from <= skip_blanks(text, from) <= text.len(),
    decreases text.len() - from,
{
    if from < text.len() && is_blank(text[from]) {
        lemma_skip_blanks_bounds(text, from + 1);
    }
}

/// `token_end` never moves backwards and never past the end.
pub proof fn lemma_token_end_bounds(text: Seq<u8>, from: int)
    requires
        0 <= from <= text.len(),
    ensures
        from <= token_end(text, from) <= text.len(),
    decreases text.len() - from,
{
    if from < text.len() && text[from] != QUOTE {
        if text[from] == ESCAPE && from + 1 < text.len() {
            lemma_token_end_bounds(text, from + 2);
        } else {
            lemma_token_end_bounds(text, from + 1);
        }
    }
}

/// Whether the list elements that start at `from` hold `target` as one whole
/// token, read from the left: blanks, a quoted token, blanks, then a
/// separator and the next element. The answer is `true` at the first token
/// equal to `target`; it is `false` as soon as the text ends, the list
/// closes, or anything but a quoted token or a separator stands where one is
/// due.
pub open spec fn list_has(text: Seq<u8>, from: int, target: Seq<u8>) -> bool
    decreases text.len() - from,
{
    if from < 0 || from > text.len() {
        false
    } else {
        let open = skip_blanks(text, from);
        if open >= text.len() || text[open] != QUOTE {
            false
        } else {
            let close = token_end(text, open + 1);
            if close >= text.len() {
                false
            } else if token_text(text, open + 1) == target {
                true
            } else {
                let next = skip_blanks(text, close + 1);
                proof {
                    lemma_skip_blanks_bounds(text, from);
                    lemma_token_end_bounds(text, open + 1);
                    lemma_skip_blanks_bounds(text, close + 1);
                }
                next < text.len() && text[next] == SEPARATOR && list_has(text, next + 1, target)
            }
        }
    }
}

/// Whether a capability list holds `target` as one whole token. Only blanks
/// may stand before the opening bracket; the elements follow as `list_has`
/// reads them.
pub open spec fn blob_has(blob: Seq<u8>, target: Seq<u8>) -> bool {
    let open = skip_blanks(blob, 0);
    open < blob.len() && blob[open] == LIST_OPEN && list_has(blob, open + 1, target)
}

/// The length of a text in bytes, as UTF-8.
pub open spec fn byte_len(text: Seq<char>) -> nat {
    encode_utf8(text).len()
}

/// Whether the capability list `capabilities` declares the tag `target`, both
/// taken as the bytes of their UTF-8 text.
pub open spec fn declares(capabilities: Seq<char>, target: Seq<char>) -> bool {
    blob_has(encode_utf8(capabilities), encode_utf8(target))
}

/// A tag that can stand between quotes as it is: it holds neither a quote
/// nor an escape byte.
pub open spec fn plain(tag: Seq<u8>) -> bool {
    forall|i: int| 0 <= i < tag.len() ==> tag[i] != QUOTE && tag[i] != ESCAPE
}

/// A tag between two quotes.
pub open spec fn quoted(tag: Seq<u8>) -> Seq<u8> {
    seq![QUOTE] + tag + seq![QUOTE]
}

/// The elements of a compact list and the bracket that closes it: each tag
/// between quotes, a separator between two tags, no blanks.
pub open spec fn written_elements(tags: Seq<Seq<u8>>) -> Seq<u8>
    decreases tags.len(),
{
    if tags.len() == 0 {
        seq![LIST_CLOSE]
    } else if tags.len() == 1 {
        quoted(tags[0]) + seq![LIST_CLOSE]
    } else {
        quoted(tags[0]) + seq![SEPARATOR] + written_elements(tags.drop_first())
    }
}

/// A list of tags written in compact form, such as `["scraping","coding"]`.
pub open spec fn written(tags: Seq<Seq<u8>>) -> Seq<u8> {
    seq![LIST_OPEN] + written_elements(tags)
}

/// Blanks are passed over in a text as they are in the same text behind a
/// prefix.
proof fn lemma_skip_blanks_shift(prefix: Seq<u8>, rest: Seq<u8>, from: int)
    requires
        0 <= from <= rest.len(),
    ensures
        skip_blanks(prefix + rest, prefix.len() + from) == prefix.len() + skip_blanks(rest, from),
    decreases rest.len() - from,
{
    if from < rest.len() {
        assert((prefix + rest)[prefix.len() + from] == rest[from]);
        if is_blank(rest[from]) {
            lemma_skip_blanks_shift(prefix, rest, from + 1);
        }
    }
}

/// A token ends and reads in a text as it does in the same text behind a
/// prefix.
proof fn lemma_token_shift(prefix: Seq<u8>, rest: Seq<u8>, from: int)
    requires
        0 <= from <= rest.len(),
    ensures
        token_end(prefix + rest, prefix.len() + from) == prefix.len() + token_end(rest, from),
        token_text(prefix + rest, prefix.len() + from) == token_text(rest, from),
    decreases rest.len() - from,
{
    if from < rest.len() {
        assert((prefix + rest)[prefix.len() + from] == rest[from]);
        if rest[from] != QUOTE {
            if rest[from] == ESCAPE && from + 1 < rest.len() {
                assert((prefix + rest)[prefix.len() + from + 1] == rest[from + 1]);
                lemma_token_shift(prefix, rest, from + 2);
            } else {
                lemma_token_shift(prefix, rest, from + 1);
            }
        }
    }
}

/// List elements are read in a text as they are in the same text behind a
/// prefix.
proof fn lemma_list_has_shift(prefix: Seq<u8>, rest: Seq<u8>, from: int, target: Seq<u8>)
    requires
        0 <= from <= rest.len(),
    ensures
        list_has(prefix + rest, prefix.len() + from, target) == list_has(rest, from, target),
    decreases rest.len() - from,
{
    let whole = prefix + rest;
    let shift = prefix.len() as int;
    lemma_skip_blanks_shift(prefix, rest, from);
    lemma_skip_blanks_bounds(rest, from);
    let open = skip_blanks(rest, from);
    if open < rest.len() {
        assert(whole[shift + open] == rest[open]);
        if rest[open] == QUOTE {
            lemma_token_shift(prefix, rest, open + 1);
            lemma_token_end_bounds(rest, open + 1);
            let close = token_end(rest, open + 1);
            if close < rest.len() && token_text(rest, open + 1) != target {
                lemma_skip_blanks_shift(prefix, rest, close + 1);
                lemma_skip_blanks_bounds(rest, close + 1);
                let next = skip_blanks(rest, close + 1);
                if next < rest.len() {
                    assert(whole[shift + next] == rest[next]);
                    if rest[next] == SEPARATOR {
                        lemma_list_has_shift(prefix, rest, next + 1, target);
                    }
                }
            }
        }
    }
}

/// A plain tag between quotes is read back as it was written, whatever
/// follows the closing quote.
proof fn lemma_plain_token(tag: Seq<u8>, after: Seq<u8>, from: int)
    requires
        plain(tag),
        0 <= from <= tag.len(),
    ensures
        token_end(quoted(tag) + after, 1 + from) == 1 + tag.len(),
        token_text(quoted(tag) + after, 1 + from) == tag.skip(from),
    decreases tag.len() - from,
{
    let text = quoted(tag) + after;
    if from < tag.len() {
        assert(text[1 + from] == tag[from]);
        lemma_plain_token(tag, after, from + 1);
        assert(seq![tag[from]] + tag.skip(from + 1) =~= tag.skip(from));
    } else {
        assert(text[1 + from] == QUOTE);
        assert(tag.skip(from) =~= Seq::<u8>::empty());
    }
}

/// The elements of a compact list of plain tags hold a target exactly where
/// it is one of the tags.
proof fn lemma_written_elements(tags: Seq<Seq<u8>>, target: Seq<u8>)
    requires
        forall|i: int| 0 <= i < tags.len() ==> plain(#[trigger] tags[i]),
    ensures
        list_has(written_elements(tags), 0, target) == tags.contains(target),
    decreases tags.len(),
{
    let text = written_elements(tags);
    if tags.len() == 0 {
        assert(text[0] == LIST_CLOSE);
    } else {
        let tag = tags[0];
        let tail = tags.drop_first();
        let after = if tags.len() == 1 {
            seq![LIST_CLOSE]
        } else {
            seq![SEPARATOR] + written_elements(tail)
        };
        assert(text =~= quoted(tag) + after);
        assert(text[0] == QUOTE);
        lemma_plain_token(tag, after, 0);
        assert(tag.skip(0) =~= tag);
        let close = tag.len() as int + 1;
        assert(token_end(text, 1) == close);
        assert(token_text(text, 1) == tag);
        assert(text[close] == QUOTE);
        assert(text[close + 1] == after[0]);
        assert(tags.contains(target) <==> tag == target || tail.contains(target)) by {
            if tags.contains(target) {
                let at = choose|i: int| 0 <= i < tags.len() && tags[i] == target;
                if at > 0 {
                    assert(tail[at - 1] == target);
                }
            }
            if tail.contains(target) {
                let at = choose|i: int| 0 <= i < tail.len() && tail[i] == target;
                assert(tags[at + 1] == target);
            }
        }
        if tag != target {
            if tags.len() == 1 {
                assert(!tail.contains(target));
            } else {
                assert forall|i: int| 0 <= i < tail.len() implies plain(#[trigger] tail[i]) by {
                    assert(tail[i] == tags[i + 1]);
                }
                lemma_written_elements(tail, target);
                let prefix = quoted(tag) + seq![SEPARATOR];
                assert(text =~= prefix + written_elements(tail));
                lemma_list_has_shift(prefix, written_elements(tail), 0, target);
                assert(prefix.len() == close + 2);
            }
        }
    }
}

/// Exact match: a compact list of plain tags holds a target exactly where
/// the target is one of its tags, whole. A tag of which the target is only
/// a part does not count, nor one that is only a part of the target.
pub proof fn lemma_written_list_holds_its_tags(tags: Seq<Seq<u8>>, target: Seq<u8>)
    requires
        forall|i: int| 0 <= i < tags.len() ==> plain(#[trigger] tags[i]),
    ensures
        blob_has(written(tags), target) == tags.contains(target),
{
    let text = written(tags);
    assert(text[0] == LIST_OPEN);
    lemma_written_elements(tags, target);
    lemma_list_has_shift(seq![LIST_OPEN], written_elements(tags), 0, target);
}

/// Whether a token opens at `open` in `text`, is closed, and reads as
/// `target`.
pub open spec fn token_at(text: Seq<u8>, open: int, target: Seq<u8>) -> bool {
    &&& 0 <= open < text.len()
    &&& text[open] == QUOTE
    &&& token_end(text, open + 1) < text.len()
    &&& token_text(text, open + 1) == target
}

/// Where the elements from `from` on hold a target, one closed token at or
/// after `from` reads as the target.
proof fn lemma_list_match_is_a_token(text: Seq<u8>, from: int, target: Seq<u8>)
    requires
        list_has(text, from, target),
    ensures
        exists|open: int| from <= open && token_at(text, open, target),
    decreases text.len() - from,
{
    lemma_skip_blanks_bounds(text, from);
    let open = skip_blanks(text, from);
    lemma_token_end_bounds(text, open + 1);
    let close = token_end(text, open + 1);
    if token_text(text, open + 1) == target {
        assert(token_at(text, open, target));
    } else {
        lemma_skip_blanks_bounds(text, close + 1);
        let next = skip_blanks(text, close + 1);
        lemma_list_match_is_a_token(text, next + 1, target);
        let later = choose|later: int| next + 1 <= later && token_at(text, later, target);
        assert(from <= later && token_at(text, later, target));
    }
}

/// No partial match: where a list holds a target, a whole token of the list,
/// from its opening quote to its closing quote, reads as the target. A
/// target that is only a part of a token, or of which a token is only a
/// part, is never found.
pub proof fn lemma_match_is_a_whole_token(blob: Seq<u8>, target: Seq<u8>)
    requires
        blob_has(blob, target),
    ensures
        exists|open: int| token_at(blob, open, target),
{
    lemma_skip_blanks_bounds(blob, 0);
    lemma_list_match_is_a_token(blob, skip_blanks(blob, 0) + 1, target);
    let open = choose|open: int| skip_blanks(blob, 0) + 1 <= open && token_at(blob, open, target);
    assert(token_at(blob, open, target));
}

/// A token without an escape byte reads as the bytes between its quotes.
pub proof fn lemma_token_without_escape(text: Seq<u8>, from: int)
    requires
        0 <= from <= text.len(),
        forall|i: int| from <= i < token_end(text, from) ==> text[i] != ESCAPE,
    ensures
        token_text(text, from) == text.subrange(from, token_end(text, from)),
    decreases text.len() - from,
{
    lemma_token_end_bounds(text, from);
    if from < text.len() && text[from] != QUOTE {
        if text[from] == ESCAPE && from + 1 < text.len() {
            lemma_token_end_bounds(text, from + 2);
        } else {
            lemma_token_end_bounds(text, from + 1);
        }
        assert(from < token_end(text, from));
        assert(text[from] != ESCAPE);
        lemma_token_without_escape(text, from + 1);
        assert(seq![text[from]] + text.subrange(from + 1, token_end(text, from)) =~= text.subrange(
            from,
            token_end(text, from),
        ));
    } else {
        assert(text.subrange(from, token_end(text, from)) =~= Seq::<u8>::empty());
    }
}

/// The length of a text in bytes.
pub fn text_len(text: &str) -> (len: usize)
    ensures
        len == byte_len(text@),
{
    text.as_bytes().len()
}

/// Whether `byte` is a blank.
pub fn is_blank_byte(byte: u8) -> (blank: bool)
    ensures
        blank == is_blank(byte),
{
    byte == 32 || byte == 9 || byte == 10 || byte == 12 || byte == 13
}

/// Moves from `from` past every blank byte.
fn pass_blanks(text: &[u8], from: usize) -> (at: usize)
    requires
        from <= text@.len(),
    ensures
        at == skip_blanks(text@, from as int),
        from <= at <= text@.len(),
{
    let mut at: usize = from;
    while at < text.len() && is_blank_byte(text[at])
        invariant
            from <= at <= text@.len(),
            skip_blanks(text@, from as int) == skip_blanks(text@, at as int),
        decreases text@.len() - at,
    {
        at += 1;
    }
    at
}

/// Reads the token whose first byte stands at `from` and compares it with
/// `target`: the position where the token closes, and whether its bytes are
/// those of `target`.
fn read_token(text: &[u8], from: usize, target: &[u8]) -> (read: (usize, bool))
    requires
        from <= text@.len(),
    ensures
        read.0 == token_end(text@, from as int),
        from <= read.0 <= text@.len(),
        read.1 == (token_text(text@, from as int) == target@),
{
    let mut at: usize = from;
    let mut taken: usize = 0;
    let mut same: bool = true;
    let ghost mut seen: Seq<u8> = Seq::empty();
    while at < text.len() && text[at] != QUOTE
        invariant
            from <= at <= text@.len(),
            taken == seen.len(),
            taken <= at - from,
            token_end(text@, from as int) == token_end(text@, at as int),
            token_text(text@, from as int) == seen + token_text(text@, at as int),
            same == (seen.len() <= target@.len() && seen =~= target@.take(seen.len() as int)),
        decreases text@.len() - at,
    {
        let ghost before = seen;
        let mut byte: u8 = text[at];
        if byte == ESCAPE && at + 1 < text.len() {
            at += 1;
            byte = text[at];
        }
        if taken >= target.len() || byte != target[taken] {
            same = false;
        }
        proof {
            seen = before.push(byte);
            assert(before + (seq![byte] + token_text(text@, at + 1)) =~= seen + token_text(
                text@,
                at + 1,
            ));
            if seen.len() <= target@.len() {
                assert(before == seen.take(before.len() as int));
                assert(target@.take(before.len() as int) == target@.take(
                    seen.len() as int,
                ).take(before.len() as int));
                if same {
                    assert(seen =~= target@.take(seen.len() as int));
                } else if before == target@.take(before.len() as int) {
                    assert(seen[before.len() as int] != target@.take(seen.len() as int)[before.len() as int]);
                }
            }
        }
        taken += 1;
        at += 1;
    }
    proof {
        assert(token_text(text@, at as int) == Seq::<u8>::empty());
        assert(seen + Seq::<u8>::empty() =~= seen);
        if seen.len() == target@.len() {
            assert(target@.take(seen.len() as int) =~= target@);
        }
    }
    (at, same && taken == target.len())
}

/// Whether the capability list `blob` holds `target` as one whole token.
///
/// The list is read from the left. The answer is `true` at the first token
/// whose bytes, escapes resolved, are exactly those of `target`. It is
/// `false` where the list closes before such a token, and where the text
/// before such a token is no list: no opening bracket, a token never closed,
/// an element that is no quoted token, a byte out of place.
pub fn has_capability_bytes(blob: &[u8], target: &[u8]) -> (found: bool)
    ensures
        found == blob_has(blob@, target@),
{
    let len = blob.len();
    let open = pass_blanks(blob, 0);
    if open >= len || blob[open] != LIST_OPEN {
        return false;
    }
    let mut at: usize = open + 1;
    loop
        invariant
            len == blob@.len(),
            at <= len,
            blob_has(blob@, target@) == list_has(blob@, at as int, target@),
        decreases len - at,
    {
        let quote = pass_blanks(blob, at);
        if quote >= len || blob[quote] != QUOTE {
            return false;
        }
        let (close, same) = read_token(blob, quote + 1, target);
        if close >= len {
            return false;
        }
        if same {
            return true;
        }
        let next = pass_blanks(blob, close + 1);
        if next >= len || blob[next] != SEPARATOR {
            return false;
        }
        at = next + 1;
    }
}

/// Whether the capability list `capabilities` declares the tag `target`:
/// `has_capability_bytes` on the bytes of the two texts.
pub fn has_capability(capabilities: &str, target: &str) -> (found: bool)
    ensures
        found == declares(capabilities@, target@),
{
    has_capability_bytes(capabilities.as_bytes(), target.as_bytes())
}

} // verus!
