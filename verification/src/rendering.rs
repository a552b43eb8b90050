use vstd::prelude::*;

mod border_painter;

pub use border_painter::bottom_plain_spec;
pub use border_painter::bottom_spec;
pub use border_painter::side_spec;
pub use border_painter::top_plain_spec;
pub use border_painter::top_spec;
pub use border_painter::BorderPainter;

verus! {

/// The sequence that repeats one character `n` times.
pub open spec fn run_spec(c: char, n: nat) -> Seq<char> {
    Seq::new(n, |i: int| c)
}

/// Relies on `String::push`: appends a single character to the end of the
/// string, leaving the characters before it unchanged.
#[verifier::external_body]
pub(crate) fn push_char(s: &mut String, c: char)
    ensures
        final(s)@ == old(s)@ + seq![c],
{
    s.push(c);
}

/// Builds the string that repeats one character `n` times.
pub(crate) fn repeat_char(c: char, n: usize) -> (r: String)
    ensures
        r@ == run_spec(c, n as nat),
{
    let mut r = String::new();
    let mut i: usize = 0;
    proof {
        assert(r@ =~= run_spec(c, 0));
    }
    while i < n
        invariant
            i <= n,
            r@ == run_spec(c, i as nat),
        decreases n - i,
    {
        push_char(&mut r, c);
        i = i + 1;
        proof {
            assert(r@ =~= run_spec(c, i as nat));
        }
    }
    r
}

} // verus!
