//! The short form in which a tool's result is announced.

use vstd::prelude::*;
use crate::text;

verus! {

/// The most bytes of a result that its summary shows.
pub const TOOL_SUMMARY_MAX_LEN: usize = 120;

/// The text with a space in place of every line feed.
pub open spec fn one_line(result: Seq<char>) -> Seq<char> {
    result.map_values(
        |c: char|
            if c == '\n' {
                ' '
            } else {
                c
            },
    )
}

/// The bytes of the text on one line.
pub open spec fn line_bytes(result: Seq<char>) -> Seq<u8> {
    vstd::utf8::encode_utf8(one_line(result))
}

/// Whether the summary can be cut where it has to be: a long result must not have a character
/// across the cut.
pub open spec fn summarizable(result: Seq<char>) -> bool {
    line_bytes(result).len() <= TOOL_SUMMARY_MAX_LEN || vstd::utf8::is_char_boundary(
        line_bytes(result),
        TOOL_SUMMARY_MAX_LEN as int,
    )
}

/// The summary of a result: its text on one line, and of a long one the first bytes only,
/// marked by an ellipsis.
pub open spec fn summary_text(result: Seq<char>) -> Seq<char> {
    if line_bytes(result).len() <= TOOL_SUMMARY_MAX_LEN {
        one_line(result)
    } else {
        vstd::utf8::decode_utf8(line_bytes(result).subrange(0, TOOL_SUMMARY_MAX_LEN as int))
            + "..."@
    }
}

proof fn lemma_replaced_is_one_line(result: Seq<char>)
    ensures
        text::replaced(result, '\n', seq![' ']) == one_line(result),
    decreases result.len(),
{
    if result.len() > 0 {
        lemma_replaced_is_one_line(result.drop_last());
    }
    assert(text::replaced(result, '\n', seq![' ']) =~= one_line(result));
}

fn to_one_line(result: &str) -> (line: String)
    ensures
        line@ == one_line(result@),
{
    proof {
        reveal_strlit(" ");
        assert(" "@ == seq![' ']);
        lemma_replaced_is_one_line(result@);
    }
    text::replace_char(result, '\n', " ")
}

/// Whether [`tool_summary`] can be asked for this result.
pub fn can_summarize(result: &str) -> (answer: bool)
    ensures
        answer == summarizable(result@),
{
    let line = to_one_line(result);
    line.as_str().as_bytes().len() <= TOOL_SUMMARY_MAX_LEN || line.as_str().is_char_boundary(
        TOOL_SUMMARY_MAX_LEN,
    )
}

/// Summarizes the result of a tool.
pub fn tool_summary(result: &str) -> (summary: String)
    requires
        summarizable(result@),
    ensures
        summary@ == summary_text(result@),
{
    let line = to_one_line(result);
    if line.as_str().as_bytes().len() > TOOL_SUMMARY_MAX_LEN {
        let (head, _tail) = line.as_str().split_at(TOOL_SUMMARY_MAX_LEN);
        proof {
            vstd::utf8::encode_utf8_decode_utf8(head@);
        }
        let mut summary = head.to_owned();
        summary.append("...");
        summary
    } else {
        line
    }
}

/// A summary stands on one line.
pub proof fn law_summary_has_no_line_feed(result: Seq<char>)
    requires
        summarizable(result),
    ensures
        !summary_text(result).contains('\n'),
{
    let line = one_line(result);
    assert(!line.contains('\n'));
    if line_bytes(result).len() > TOOL_SUMMARY_MAX_LEN {
        law_cut_keeps_a_prefix(result);
        reveal_strlit("...");
        let head = vstd::utf8::decode_utf8(
            line_bytes(result).subrange(0, TOOL_SUMMARY_MAX_LEN as int),
        );
        assert forall|i: int| 0 <= i < summary_text(result).len() implies summary_text(result)[i]
            != '\n' by {
            if i < head.len() {
                assert(summary_text(result)[i] == line[i]);
            }
        }
    }
}

/// What is kept of a long result is a prefix of it, of the full length allowed.
pub proof fn law_cut_keeps_a_prefix(result: Seq<char>)
    requires
        summarizable(result),
        line_bytes(result).len() > TOOL_SUMMARY_MAX_LEN,
    ensures
        ({
            let head = vstd::utf8::decode_utf8(
                line_bytes(result).subrange(0, TOOL_SUMMARY_MAX_LEN as int),
            );
            &&& head.is_prefix_of(one_line(result))
            &&& vstd::utf8::encode_utf8(head).len() == TOOL_SUMMARY_MAX_LEN
        }),
{
    let bytes = line_bytes(result);
    let cut = TOOL_SUMMARY_MAX_LEN as int;
    let line = one_line(result);
    vstd::utf8::encode_utf8_valid_utf8(line);
    vstd::utf8::encode_utf8_decode_utf8(line);
    vstd::utf8::decode_utf8_split(bytes, cut);
    vstd::utf8::valid_utf8_split(bytes, cut);
    vstd::utf8::decode_utf8_encode_utf8(bytes.subrange(0, cut));
    let head = vstd::utf8::decode_utf8(bytes.subrange(0, cut));
    assert(head.is_prefix_of(line));
}

proof fn lemma_encode_concat(a: Seq<char>, b: Seq<char>)
    ensures
        vstd::utf8::encode_utf8(a + b) == vstd::utf8::encode_utf8(a) + vstd::utf8::encode_utf8(b),
    decreases a.len(),
{
    if a.len() == 0 {
        assert(a + b == b);
        assert(vstd::utf8::encode_utf8(a) + vstd::utf8::encode_utf8(b)
            == vstd::utf8::encode_utf8(b));
    } else {
        lemma_encode_concat(a.drop_first(), b);
        assert((a + b).drop_first() == a.drop_first() + b);
        assert(vstd::utf8::encode_utf8(a + b) =~= vstd::utf8::encode_utf8(a)
            + vstd::utf8::encode_utf8(b));
    }
}

/// A summary is never longer than the most bytes shown and the ellipsis, and a summary that
/// was cut has exactly that length.
pub proof fn law_summary_length(result: Seq<char>)
    requires
        summarizable(result),
    ensures
        line_bytes(result).len() <= TOOL_SUMMARY_MAX_LEN ==> vstd::utf8::encode_utf8(
            summary_text(result),
        ).len() <= TOOL_SUMMARY_MAX_LEN,
        line_bytes(result).len() > TOOL_SUMMARY_MAX_LEN ==> vstd::utf8::encode_utf8(
            summary_text(result),
        ).len() == TOOL_SUMMARY_MAX_LEN + 3,
{
    if line_bytes(result).len() > TOOL_SUMMARY_MAX_LEN {
        law_cut_keeps_a_prefix(result);
        reveal_strlit("...");
        lemma_encode_concat(
            vstd::utf8::decode_utf8(line_bytes(result).subrange(0, TOOL_SUMMARY_MAX_LEN as int)),
            "..."@,
        );
        vstd::utf8::is_ascii_chars_encode_utf8("..."@);
    }
}

/// A result on one line that is not too long is its own summary.
pub proof fn law_short_result_is_its_own_summary(result: Seq<char>)
    requires
        !result.contains('\n'),
        vstd::utf8::encode_utf8(result).len() <= TOOL_SUMMARY_MAX_LEN,
    ensures
        summary_text(result) == result,
{
    assert forall|i: int| 0 <= i < result.len() implies result[i] != '\n' by {
        assert(result.contains(result[i]));
    }
    assert(one_line(result) =~= result);
}

/// Every plain ASCII result can be summarized.
pub proof fn law_ascii_is_summarizable(result: Seq<char>)
    requires
        vstd::utf8::is_ascii_chars(result),
    ensures
        summarizable(result),
{
    let line = one_line(result);
    let bytes = line_bytes(result);
    let cut = TOOL_SUMMARY_MAX_LEN as int;
    assert(vstd::utf8::is_ascii_chars(line));
    if bytes.len() > cut {
        vstd::utf8::is_ascii_chars_encode_utf8(line);
        vstd::utf8::encode_utf8_valid_utf8(line);
        assert(line[cut] as u8 == bytes[cut]);
        vstd::utf8::is_char_boundary_iff_not_is_continuation_byte(bytes, cut);
    }
}

/// Whether two texts agree but for line feeds in the one, where the other has spaces.
pub open spec fn agrees(shown: char, given: char) -> bool {
    if given == '\n' {
        shown == ' '
    } else {
        shown == given
    }
}

/// A result of at most 120 bytes is shown whole. Of a longer one, three dots stand behind a
/// beginning of 120 bytes. What is shown agrees with the result, character by character, but
/// for line feeds, which are shown as spaces.
pub proof fn law_summary_shows_the_result(result: Seq<char>)
    requires
        summarizable(result),
    ensures
        ({
            let shown = summary_text(result);
            let long = vstd::utf8::encode_utf8(one_line(result)).len() > 120;
            let kept: int = if long {
                shown.len() - 3
            } else {
                shown.len() as int
            };
            &&& 0 <= kept <= result.len()
            &&& !long ==> kept == result.len()
            &&& long ==> shown.skip(kept) == "..."@
            &&& long ==> vstd::utf8::encode_utf8(shown.take(kept)).len() == 120
            &&& forall|i: int| 0 <= i < kept ==> agrees(#[trigger] shown[i], result[i])
        }),
{
    let shown = summary_text(result);
    let line = one_line(result);
    if line_bytes(result).len() > TOOL_SUMMARY_MAX_LEN {
        law_cut_keeps_a_prefix(result);
        reveal_strlit("...");
        let head = vstd::utf8::decode_utf8(
            line_bytes(result).subrange(0, TOOL_SUMMARY_MAX_LEN as int),
        );
        assert(shown.skip(shown.len() - 3) =~= "..."@);
        assert(shown.take(shown.len() - 3) =~= head);
        assert forall|i: int| 0 <= i < head.len() implies agrees(#[trigger] shown[i], result[i]) by {
            assert(shown[i] == line[i]);
        }
    }
}

/// A text on one line has the length of the text, and agrees with it but for line feeds, which
/// are spaces there.
pub proof fn law_one_line_keeps_the_rest(result: Seq<char>)
    ensures
        one_line(result).len() == result.len(),
        forall|i: int| 0 <= i < result.len() ==> agrees(#[trigger] one_line(result)[i], result[i]),
        TOOL_SUMMARY_MAX_LEN == 120,
{
}

/// A result can be summarized exactly if it is of at most 120 bytes, or if some beginning of it
/// is of exactly 120 bytes, so that it can be cut there.
pub proof fn law_summarizable_where_it_can_be_cut(result: Seq<char>)
    ensures
        summarizable(result) <==> vstd::utf8::encode_utf8(one_line(result)).len() <= 120 || exists|
            k: int,
        |
            0 <= k <= result.len() && vstd::utf8::encode_utf8(
                #[trigger] one_line(result).take(k),
            ).len() == 120,
{
    let line = one_line(result);
    let bytes = line_bytes(result);
    if bytes.len() > 120 {
        if summarizable(result) {
            law_cut_keeps_a_prefix(result);
            let head = vstd::utf8::decode_utf8(bytes.subrange(0, TOOL_SUMMARY_MAX_LEN as int));
            assert(line.take(head.len() as int) =~= head);
        }
        if exists|k: int|
            0 <= k <= result.len() && vstd::utf8::encode_utf8(#[trigger] line.take(k)).len()
                == 120 {
            let k = choose|k: int|
                0 <= k <= result.len() && vstd::utf8::encode_utf8(#[trigger] line.take(k)).len()
                    == 120;
            let tail = line.skip(k);
            assert(line =~= line.take(k) + tail);
            lemma_encode_concat(line.take(k), tail);
            vstd::utf8::encode_utf8_valid_utf8(line);
            lemma_boundary_of_concat(line.take(k), tail);
        }
    }
}

proof fn lemma_boundary_of_concat(head: Seq<char>, tail: Seq<char>)
    ensures
        vstd::utf8::is_char_boundary(
            vstd::utf8::encode_utf8(head + tail),
            vstd::utf8::encode_utf8(head).len() as int,
        ),
{
    let a = vstd::utf8::encode_utf8(head);
    let b = vstd::utf8::encode_utf8(tail);
    let whole = vstd::utf8::encode_utf8(head + tail);
    lemma_encode_concat(head, tail);
    vstd::utf8::encode_utf8_valid_utf8(head + tail);
    vstd::utf8::encode_utf8_valid_utf8(tail);
    vstd::utf8::is_char_boundary_start_end_of_seq(whole);
    vstd::utf8::is_char_boundary_start_end_of_seq(b);
    if b.len() > 0 {
        assert(whole[a.len() as int] == b[0]);
        vstd::utf8::is_char_boundary_iff_not_is_continuation_byte(b, 0);
        vstd::utf8::is_char_boundary_iff_not_is_continuation_byte(whole, a.len() as int);
    } else {
        assert(whole =~= a);
    }
}

} // verus!
