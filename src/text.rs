use vstd::prelude::*;
use vstd::string::*;

verus! {

/// `n` spaces.
pub open spec fn spaces(n: nat) -> Seq<char> {
    Seq::new(n, |i: int| ' ')
}

/// Whether a character that follows `s` starts a line.
pub open spec fn at_line_start(s: Seq<char>) -> bool {
    s.len() == 0 || s.last() == '\n'
}

/// `s` with `n` spaces put before the first character of each line.
pub open spec fn indented(n: nat, s: Seq<char>) -> Seq<char>
    decreases s.len(),
{
    if s.len() == 0 {
        Seq::empty()
    } else {
        let head = s.drop_last();
        let pad = if at_line_start(head) {
            spaces(n)
        } else {
            Seq::empty()
        };
        indented(n, head) + pad + seq![s.last()]
    }
}

/// Indents every line of `string` by `spaces` spaces. A final newline is
/// kept, and gets no indentation of its own.
pub fn indent(spaces: usize, string: &str) -> (r: String)
    ensures
        r@ == indented(spaces as nat, string@),
{
    let mut pad = String::new();
    let mut k: usize = 0;
    while k < spaces
        invariant
            k <= spaces,
            pad@ == crate::text::spaces(k as nat),
        decreases spaces - k,
    {
        pad.append(" ");
        proof {
            reveal_strlit(" ");
        }
        k += 1;
        assert(pad@ =~= crate::text::spaces(k as nat));
    }
    let n = string.unicode_len();
    let mut out = String::new();
    let mut i: usize = 0;
    let mut start = true;
    while i < n
        invariant
            n == string@.len(),
            i <= n,
            pad@ == crate::text::spaces(spaces as nat),
            out@ == indented(spaces as nat, string@.take(i as int)),
            start == at_line_start(string@.take(i as int)),
        decreases n - i,
    {
        let c = string.get_char(i);
        let piece = string.substring_char(i, i + 1);
        let ghost t = string@.take(i + 1);
        assert(t.drop_last() =~= string@.take(i as int));
        assert(t.last() == c);
        if start {
            out.append(pad.as_str());
        }
        out.append(piece);
        assert(piece@ =~= seq![c]);
        assert(out@ =~= indented(spaces as nat, t));
        start = c == '\n';
        i += 1;
    }
    assert(string@.take(n as int) =~= string@);
    out
}

} // verus!
