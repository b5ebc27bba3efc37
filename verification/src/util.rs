//! Small library utilities: lazily initialised values, non-null optional
//! pointers modelled by their address, bit-field access and raw-byte-string
//! escaping.

use vstd::prelude::*;

verus! {

/// Round `val` up to the next multiple of `target`.
///
/// `target` must not be zero, and the intermediate sum `val + target - 1`
/// must fit in the machine word; the result itself never exceeds that sum.
pub fn round_up(val: u64, target: u64) -> (r: u64)
    requires
        target > 0,
        val + target - 1 <= u64::MAX,
    ensures
        r == ((val + target - 1) / (target as int)) * target,
        r % target == 0,
        val <= r < val + target,
{
    let q = (val + (target - 1)) / target;
    proof {
        lemma_round_up_bounds(val as int, target as int);
    }
    q * target
}

/// `(val + target - 1) / target * target` is the least multiple of `target`
/// that is at least `val`.
proof fn lemma_round_up_bounds(val: int, target: int)
    requires
        target > 0,
        val >= 0,
    ensures
        ((val + target - 1) / target) * target % target == 0,
        val <= ((val + target - 1) / target) * target <= val + target - 1,
{
    let a = val + target - 1;
    let q = a / target;
    assert(a == q * target + a % target && 0 <= a % target < target) by {
        vstd::arithmetic::div_mod::lemma_fundamental_div_mod(a, target);
    }
    assert(q * target % target == 0) by {
        vstd::arithmetic::div_mod::lemma_mod_multiples_basic(q, target);
    }
}

/// Mutable access to one slot of a vector.
pub fn vec_index_mut<T>(v: &mut Vec<T>, i: usize) -> (element: &mut T)
    requires
        i < old(v).len(),
    ensures
        *element == old(v)@[i as int],
        final(v)@ == old(v)@.update(i as int, *final(element)),
{
    &mut v[i]
}

/// The two mutating operations shared by the sequence-like containers.
pub trait MutableSeq<T>: Sized {
    /// The elements held, front to back.
    spec fn elems(&self) -> Seq<T>;

    /// Append an element at the back.
    fn push(&mut self, t: T)
        ensures
            final(self).elems() == old(self).elems().push(t),
    ;

    /// Remove and return the back element, if there is one.
    fn pop(&mut self) -> (r: Option<T>)
        ensures
            old(self).elems().len() == 0 ==> r is None && final(self).elems() == old(self).elems(),
            old(self).elems().len() > 0 ==> r == Some(old(self).elems().last())
                && final(self).elems() == old(self).elems().drop_last(),
    ;
}

impl<T> MutableSeq<T> for Vec<T> {
    open spec fn elems(&self) -> Seq<T> {
        self@
    }

    fn push(&mut self, t: T) {
        self.push(t);
    }

    fn pop(&mut self) -> (r: Option<T>) {
        self.pop()
    }
}

/// A value initialised at most once, some time after its slot exists.
pub struct LazyStatic<T>(pub Option<T>);

impl<T> LazyStatic<T> {
    /// Initialise the slot from `fcn` if nothing initialised it before; an
    /// already-initialised slot is left alone and `fcn` is not run.
    pub fn prep<Fcn: FnOnce() -> T>(&mut self, fcn: Fcn)
        requires
            old(self).0 is None ==> call_requires(fcn, ()),
        ensures
            old(self).0 is Some ==> *final(self) == *old(self),
            old(self).0 is None ==> (final(self).0 matches Some(v) && call_ensures(fcn, (), v)),
    {
        if self.0.is_none() {
            self.0 = Some(fcn());
        }
    }

    /// Borrow the initialised value.  Asking before initialisation is a
    /// contract violation.
    pub fn get(&self) -> (r: &T)
        requires
            self.0 is Some,
        ensures
            *r == self.0.unwrap(),
    {
        self.0.as_ref().unwrap()
    }
}

/// An equivalent of `Option<*const T>` whose payload cannot be null, the
/// pointer modelled by its address: address zero means `None`.
pub struct OptPtr<T> {
    pub addr: usize,
    pub marker: core::marker::PhantomData<T>,
}

impl<T> OptPtr<T> {
    pub fn is_none(&self) -> (r: bool)
        ensures
            r == (self.addr == 0),
    {
        self.addr == 0
    }

    pub fn is_some(&self) -> (r: bool)
        ensures
            r == (self.addr != 0),
    {
        self.addr != 0
    }

    /// The non-null address held.  Asking with nothing held is a contract
    /// violation.
    pub fn unwrap(&self) -> (r: usize)
        requires
            self.addr != 0,
        ensures
            r == self.addr,
    {
        self.addr
    }
}

/// An equivalent of `Option<*mut T>` whose payload cannot be null, modelled
/// as [`OptPtr`] is.
pub struct OptMutPtr<T> {
    pub addr: usize,
    pub marker: core::marker::PhantomData<T>,
}

impl<T> OptMutPtr<T> {
    pub fn is_none(&self) -> (r: bool)
        ensures
            r == (self.addr == 0),
    {
        self.addr == 0
    }

    pub fn is_some(&self) -> (r: bool)
        ensures
            r == (self.addr != 0),
    {
        self.addr != 0
    }

    /// The non-null address held.  Asking with nothing held is a contract
    /// violation.
    pub fn unwrap(&self) -> (r: usize)
        requires
            self.addr != 0,
        ensures
            r == self.addr,
    {
        self.addr
    }
}

/// Single-bit and bit-range extraction on unsigned integers.
pub trait UintBits: Sized {
    /// What `bit` returns.
    spec fn bit_spec(&self, idx: u8) -> Self;

    /// What `bits` returns.
    spec fn bits_spec(&self, idx: u8, idx2: u8) -> Self;

    /// The positions `bit` accepts.
    spec fn bit_ok(&self, idx: u8) -> bool;

    /// The position pairs `bits` accepts.
    spec fn bits_ok(&self, idx: u8, idx2: u8) -> bool;

    /// The bit at position `idx`, as 0 or 1.
    fn bit(&self, idx: u8) -> (r: Self)
        requires
            self.bit_ok(idx),
        ensures
            r == self.bit_spec(idx),
    ;

    /// The bits from position `idx` up to (excluding) position `idx2`,
    /// shifted down to the low end.
    fn bits(&self, idx: u8, idx2: u8) -> (r: Self)
        requires
            self.bits_ok(idx, idx2),
        ensures
            r == self.bits_spec(idx, idx2),
    ;
}

impl UintBits for u16 {
    open spec fn bit_spec(&self, idx: u8) -> u16 {
        (*self >> idx) & 1
    }

    open spec fn bits_spec(&self, idx: u8, idx2: u8) -> u16 {
        (*self >> idx) & (((1u16 << (idx2 - idx)) - 1) as u16)
    }

    open spec fn bit_ok(&self, idx: u8) -> bool {
        idx < 16
    }

    open spec fn bits_ok(&self, idx: u8, idx2: u8) -> bool {
        idx <= idx2 && idx < 16 && idx2 - idx < 16
    }

    fn bit(&self, idx: u8) -> (r: u16) {
        (*self >> idx) & 1
    }

    fn bits(&self, idx: u8, idx2: u8) -> (r: u16) {
        proof {
            let d = (idx2 - idx) as u16;
            assert(d < 16 ==> (1u16 << d) >= 1) by (bit_vector);
        }
        (*self >> idx) & ((1u16 << (idx2 - idx)) - 1)
    }
}

/// How one raw byte reads in the escaped form: backslash escapes for the
/// usual control characters, the character itself for printable ASCII, and
/// a two-digit lowercase hex escape for the rest.
pub open spec fn escape_byte(b: u8) -> Seq<u8> {
    if b == 0x5c {
        seq![0x5c, 0x5c]
    } else if b == 0x0a {
        seq![0x5c, 0x6e]
    } else if b == 0x0d {
        seq![0x5c, 0x72]
    } else if b == 0x22 {
        seq![0x5c, 0x22]
    } else if b == 0x00 {
        seq![0x5c, 0x30]
    } else if 32 <= b <= 127 {
        seq![b]
    } else {
        seq![0x5c, 0x78, hex_digit((b >> 4) as u8), hex_digit((b & 0xf) as u8)]
    }
}

/// The lowercase hex digit for a nibble.
pub open spec fn hex_digit(n: u8) -> u8 {
    if n < 10 {
        (0x30 + n) as u8
    } else {
        (0x61 + (n - 10)) as u8
    }
}

/// A whole byte string in escaped form: `b"` ... `"` around every byte
/// escaped in order.
pub open spec fn escaped_spec(bs: Seq<u8>) -> Seq<u8> {
    seq![0x62u8, 0x22u8] + escape_bytes(bs) + seq![0x22u8]
}

/// Every byte escaped, in order.
pub open spec fn escape_bytes(bs: Seq<u8>) -> Seq<u8>
    decreases bs.len(),
{
    if bs.len() == 0 {
        Seq::empty()
    } else {
        escape_bytes(bs.drop_last()) + escape_byte(bs.last())
    }
}

/// Printing helper for raw byte strings.
pub struct RawString(pub Vec<u8>);

impl RawString {
    /// The bytes rendered as a quoted ASCII byte-string literal, every
    /// non-printable byte escaped.
    pub fn escaped(&self) -> (out: Vec<u8>)
        ensures
            out@ == escaped_spec(self.0@),
    {
        let n = self.0.len();
        let mut out: Vec<u8> = Vec::new();
        out.push(0x62);
        out.push(0x22);
        let mut i: usize = 0;
        while i < n
            invariant
                n == self.0@.len(),
                i <= n,
                out@ == seq![0x62u8, 0x22u8] + escape_bytes(self.0@.take(i as int)),
            decreases n - i,
        {
            let b = self.0[i];
            match b {
                0x5c => {
                    out.push(0x5c);
                    out.push(0x5c);
                },
                0x0a => {
                    out.push(0x5c);
                    out.push(0x6e);
                },
                0x0d => {
                    out.push(0x5c);
                    out.push(0x72);
                },
                0x22 => {
                    out.push(0x5c);
                    out.push(0x22);
                },
                0x00 => {
                    out.push(0x5c);
                    out.push(0x30);
                },
                32..=127 => {
                    out.push(b);
                },
                _ => {
                    proof {
                        assert(b >> 4 < 16 && b & 0xf < 16) by (bit_vector);
                    }
                    out.push(0x5c);
                    out.push(0x78);
                    out.push(hex_digit_exec(b >> 4));
                    out.push(hex_digit_exec(b & 0xf));
                },
            }
            proof {
                assert(self.0@.take(i as int + 1).drop_last() =~= self.0@.take(i as int));
                assert(out@ =~= seq![0x62u8, 0x22u8] + escape_bytes(self.0@.take(i as int + 1)));
            }
            i += 1;
        }
        out.push(0x22);
        proof {
            assert(self.0@.take(n as int) =~= self.0@);
            assert(out@ =~= escaped_spec(self.0@));
        }
        out
    }
}

/// The lowercase hex digit for a nibble.
fn hex_digit_exec(n: u8) -> (r: u8)
    requires
        n < 16,
    ensures
        r == hex_digit(n),
{
    if n < 10 {
        0x30 + n
    } else {
        0x61 + (n - 10)
    }
}

} // verus!
