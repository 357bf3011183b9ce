//! What holds of every message.

use vstd::prelude::*;

use crate::colors::Colors;
use crate::colors::ColorsView;
use crate::error::error_tag;
use crate::error::occurs_at;
use crate::error::occurs_in;
use crate::error::tag_text;
use crate::error::Error;
use crate::error::ErrorView;

verus! {

/// The words around the colors of the suggestion hold no square bracket.
proof fn lemma_suggestion_words_have_no_bracket()
    ensures
        forall|k: int|
            0 <= k < "Did you mean "@.len() ==> "Did you mean "@[k] != '[' && "Did you mean "@[k]
                != ']',
        forall|k: int|
            0 <= k < "tool compress"@.len() ==> "tool compress"@[k] != '[' && "tool compress"@[k]
                != ']',
        "?"@.len() == 1,
        "?"@[0] == '?',
        "Did you mean "@.len() == 13,
        "tool compress"@.len() == 13,
{
    reveal_strlit("Did you mean ");
    reveal_strlit("tool compress");
    reveal_strlit("?");
}

/// The suggestion shown for a mistyped compress command holds the text
/// `[ERROR]` nowhere, unless a color code itself holds it.
pub proof fn lemma_suggestion_has_no_tag(colors: ColorsView)
    requires
        !occurs_in(tag_text(), colors.magenta),
        !occurs_in(tag_text(), colors.reset),
    ensures
        ErrorView::CompressionTypo.rendering(colors) is Some,
        !occurs_in(tag_text(), ErrorView::CompressionTypo.rendering(colors)->0),
{
    let whole = ErrorView::CompressionTypo.rendering(colors)->0;
    let tag = tag_text();
    let lead = "Did you mean "@;
    let command = "tool compress"@;
    let m = colors.magenta;
    let r = colors.reset;
    lemma_suggestion_words_have_no_bracket();
    reveal_strlit("[ERROR]");
    assert(whole == lead + m + command + r + "?"@);
    assert forall|at: int| !occurs_at(tag, whole, at) by {
        if occurs_at(tag, whole, at) {
            let found = whole.subrange(at, at + 7);
            assert(found[0] == '[');
            assert(found[6] == ']');
            assert(whole[at] == '[');
            assert(whole[at + 6] == ']');
            let m_from = 13int;
            let m_to = 13 + m.len();
            let r_from = m_to + 13;
            let r_to = r_from + r.len();
            if at < m_from {
                assert(whole[at] == lead[at]);
            } else if at < m_to {
                if at + 7 <= m_to {
                    assert(m.subrange(at - m_from, at - m_from + 7) =~= found);
                    assert(occurs_at(tag, m, at - m_from));
                } else {
                    assert(whole[at + 6] == command[at + 6 - m_to]);
                }
            } else if at < r_from {
                assert(whole[at] == command[at - m_to]);
            } else if at < r_to {
                if at + 7 <= r_to {
                    assert(r.subrange(at - r_from, at - r_from + 7) =~= found);
                    assert(occurs_at(tag, r, at - r_from));
                } else {
                    assert(whole[at + 6] == '?');
                }
            } else {
                assert(whole[at] == '?');
            }
        }
    }
}

/// Every message but the suggestion for a mistyped compress command begins
/// with the error tag.
pub proof fn lemma_message_begins_with_tag(error: ErrorView, colors: ColorsView)
    requires
        error.is_rendered(),
        !(error is CompressionTypo),
    ensures
        error.rendering(colors) is Some,
        error_tag(colors).is_prefix_of(error.rendering(colors)->0),
{
}

/// Two failures that hold the same texts show the same message under the
/// same colors, character for character and so byte for byte; in particular
/// rendering one failure twice gives the same output both times.
pub proof fn lemma_render_is_repeatable(
    error: Error,
    again: Error,
    colors: Colors,
    first: String,
    second: String,
)
    requires
        error@.is_rendered(),
        error@ == again@,
        call_ensures(Error::render, (&error, &colors), first),
        call_ensures(Error::render, (&again, &colors), second),
    ensures
        first@ == second@,
        vstd::utf8::encode_utf8(first@) == vstd::utf8::encode_utf8(second@),
{
}

/// Neither the plain colors nor the ANSI colors hold the text `[ERROR]` in a
/// code, so under either the suggestion for a mistyped compress command
/// holds it nowhere.
pub proof fn lemma_given_colors_hold_no_tag(colors: ColorsView)
    requires
        colors.is_plain() || colors == ColorsView::ansi(),
    ensures
        !occurs_in(tag_text(), colors.magenta),
        !occurs_in(tag_text(), colors.reset),
        !occurs_in(tag_text(), ErrorView::CompressionTypo.rendering(colors)->0),
{
    reveal_strlit("[ERROR]");
    reveal_strlit("\u{1b}[38;5;13m");
    reveal_strlit("\u{1b}[39m");
    assert forall|at: int| !occurs_at(tag_text(), colors.magenta, at) by {
        if occurs_at(tag_text(), colors.magenta, at) {
            assert(colors.magenta.subrange(at, at + 7)[1] == 'E');
        }
    }
    assert forall|at: int| !occurs_at(tag_text(), colors.reset, at) by {
        if occurs_at(tag_text(), colors.reset, at) {
            assert(colors.reset.subrange(at, at + 7)[1] == 'E');
        }
    }
    lemma_suggestion_has_no_tag(colors);
}

} // verus!
