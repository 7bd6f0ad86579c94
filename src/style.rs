use vstd::prelude::*;
use vstd::string::*;

use crate::tracker::CssOnce;

verus! {

/// The style-sheet pieces joined in order.
pub open spec fn joined(pieces: Seq<&str>) -> Seq<char>
    decreases pieces.len(),
{
    if pieces.len() == 0 {
        Seq::empty()
    } else {
        joined(pieces.drop_last()) + pieces.last()@
    }
}

/// The style block of a fragment: its pieces joined in order, inside a
/// `<style>` element and followed by a line break.
pub open spec fn style_text(pieces: Seq<&str>) -> Seq<char> {
    "<style>"@ + joined(pieces) + "</style>\n"@
}

/// What a fragment of kind `kind` emits for its styles when the tracker has
/// seen the kinds `seen`: the style block the first time, nothing after.
pub open spec fn emitted(seen: Set<Seq<char>>, kind: Seq<char>, pieces: Seq<&str>) -> Seq<char> {
    if seen.contains(kind) {
        Seq::empty()
    } else {
        style_text(pieces)
    }
}

/// Builds the style block of the given style-sheet pieces.
pub fn style_block(pieces: &[&str]) -> (r: String)
    ensures
        r@ == style_text(pieces@),
{
    let mut out = String::from_str("<style>");
    let mut i: usize = 0;
    while i < pieces.len()
        invariant
            0 <= i <= pieces@.len(),
            out@ == "<style>"@ + joined(pieces@.take(i as int)),
        decreases pieces@.len() - i,
    {
        assert(pieces@.take(i + 1).drop_last() =~= pieces@.take(i as int));
        out.append(pieces[i]);
        i = i + 1;
    }
    assert(pieces@.take(i as int) =~= pieces@);
    out.append("</style>\n");
    out
}

/// Emits the style block of a fragment of kind `kind` if the tracker has not
/// seen that kind yet, and the empty string otherwise; the kind is recorded
/// as seen either way.
pub fn css_once(css: &mut CssOnce, kind: &str, pieces: &[&str]) -> (r: String)
    ensures
        r@ == emitted(old(css)@, kind@, pieces@),
        final(css)@ == old(css)@.insert(kind@),
{
    if css.is_rendered(kind) {
        String::new()
    } else {
        style_block(pieces)
    }
}

} // verus!
