//! The repeating two-byte pattern and the buffer that holds it.
use vstd::prelude::*;

verus! {

/// The byte that opens each line.
pub const LINE_CHAR: u8 = 121;

/// The byte that closes each line.
pub const LINE_END: u8 = 10;

/// The byte at position `i` of the endless output stream.
pub open spec fn stream_byte(i: int) -> u8 {
    if i % 2 == 0 {
        LINE_CHAR
    } else {
        LINE_END
    }
}

/// The first `n` bytes of the endless output stream.
pub open spec fn stream_prefix(n: nat) -> Seq<u8> {
    Seq::new(n, |i: int| stream_byte(i))
}

/// One line: the character followed by the terminator.
pub open spec fn line() -> Seq<u8> {
    seq![LINE_CHAR, LINE_END]
}

/// `k` lines written end to end.
pub open spec fn lines(k: nat) -> Seq<u8>
    decreases k,
{
    if k == 0 {
        Seq::empty()
    } else {
        lines((k - 1) as nat) + line()
    }
}

/// The first `2 * k` bytes of the stream are exactly `k` lines.
pub proof fn lemma_prefix_is_lines(k: nat)
    ensures
        stream_prefix(2 * k) == lines(k),
    decreases k,
{
    if k > 0 {
        lemma_prefix_is_lines((k - 1) as nat);
        assert(stream_prefix(2 * k) =~= stream_prefix(2 * (k - 1) as nat) + line());
    }
}

/// A prefix of a prefix of the stream is a prefix of the stream.
pub proof fn lemma_prefix_take(n: nat, m: nat)
    requires
        m <= n,
    ensures
        stream_prefix(n).take(m as int) == stream_prefix(m),
{
    assert(stream_prefix(n).take(m as int) =~= stream_prefix(m));
}

/// Appending a prefix of the stream to a prefix of even length continues
/// the stream.
pub proof fn lemma_prefix_append(a: nat, b: nat)
    requires
        a % 2 == 0,
    ensures
        stream_prefix(a) + stream_prefix(b) == stream_prefix(a + b),
{
    assert forall|j: int| a <= j < a + b implies stream_byte(j - a) == #[trigger] stream_byte(j) by {
        assert((j - a) % 2 == j % 2);
    }
    assert(stream_prefix(a) + stream_prefix(b) =~= stream_prefix(a + b));
}

/// Builds `n` bytes of the pattern: the character at every even index, the
/// terminator at every odd one.
pub fn create_yes_array(n: usize) -> (r: Vec<u8>)
    requires
        n % 2 == 0,
    ensures
        r@ == stream_prefix(n as nat),
        r@.len() == n,
        forall|i: int| 0 <= i < n / 2 ==> #[trigger] r@[2 * i] == LINE_CHAR && r@[2 * i + 1] == LINE_END,
{
    let mut res: Vec<u8> = Vec::with_capacity(n);
    let mut i: usize = 0;
    while i < n
        invariant
            n % 2 == 0,
            i % 2 == 0,
            i <= n,
            res@ == stream_prefix(i as nat),
        decreases n - i,
    {
        res.push(LINE_CHAR);
        res.push(LINE_END);
        assert(res@ =~= stream_prefix((i + 2) as nat));
        i = i + 2;
    }
    assert forall|i: int| 0 <= i < n / 2 implies #[trigger] res@[2 * i] == LINE_CHAR && res@[2 * i + 1] == LINE_END by {
        assert((2 * i) % 2 == 0);
        assert((2 * i + 1) % 2 == 1);
    }
    res
}

/// A pattern buffer: filled once when it is made, read-only afterwards.
pub struct YesBuffer {
    bytes: Vec<u8>,
}

impl View for YesBuffer {
    type V = Seq<u8>;

    closed spec fn view(&self) -> Seq<u8> {
        self.bytes@
    }
}

impl YesBuffer {
    /// Makes a buffer of `n` bytes of the pattern.
    pub fn new(n: usize) -> (r: YesBuffer)
        requires
            n % 2 == 0,
        ensures
            r@ == stream_prefix(n as nat),
    {
        YesBuffer { bytes: create_yes_array(n) }
    }

    /// The buffer's bytes, for handing to a transfer primitive.
    pub fn as_slice(&self) -> (r: &[u8])
        ensures
            r@ == self@,
    {
        self.bytes.as_slice()
    }

    /// The number of bytes in the buffer.
    pub fn len(&self) -> (r: usize)
        ensures
            r == self@.len(),
    {
        self.bytes.len()
    }
}

} // verus!
