use vstd::prelude::*;

verus! {

/// Number of bytes in an IEEE MAC-48 / EUI-48 hardware address.
pub const EUI48_LEN: usize = 6;

/// An IP address, held by value: an IPv4 address as its 32-bit big-endian
/// number, an IPv6 address as its 128-bit big-endian number.
#[derive(Clone, Copy, Debug, PartialEq, Eq)]
pub enum IpAddr {
    V4(u32),
    V6(u128),
}

/// A unicast address of an interface together with its network prefix length.
#[derive(Clone, Copy, Debug, PartialEq, Eq)]
pub struct IpAddrSet {
    pub unicast_addr: IpAddr,
    pub prefix_len: u8,
}

/// The lower-case hexadecimal digit for a value below sixteen.
pub open spec fn hex_digit(n: u8) -> char {
    if n < 10 {
        (n + 48) as char
    } else {
        (n + 87) as char
    }
}

/// A byte as two lower-case hexadecimal digits, high nibble first.
pub open spec fn hex_byte(b: u8) -> Seq<char> {
    seq![hex_digit(b / 16), hex_digit(b % 16)]
}

/// The bytes of a hardware address, each as two lower-case hexadecimal
/// digits, separated by dashes (`00-1a-2b-3c-4d-5e`).
pub open spec fn mac_string(bytes: Seq<u8>) -> Seq<char>
    decreases bytes.len(),
{
    if bytes.len() == 0 {
        seq![]
    } else if bytes.len() == 1 {
        hex_byte(bytes[0])
    } else {
        mac_string(bytes.drop_last()) + seq!['-'] + hex_byte(bytes.last())
    }
}

fn exec_hex_digit(n: u8) -> (c: char)
    requires
        n < 16,
    ensures
        c == hex_digit(n),
{
    if n < 10 {
        (n + 48) as char
    } else {
        (n + 87) as char
    }
}

/// `String::push`: appends one character at the end of the string.
#[verifier::external_body]
fn push_char(s: &mut String, c: char)
    ensures
        final(s)@ == old(s)@.push(c),
{
    s.push(c);
}

/// An IEEE MAC-48 (EUI-48) hardware address.
pub struct HardwareAddr {
    bytes: [u8; EUI48_LEN],
}

impl View for HardwareAddr {
    type V = Seq<u8>;

    closed spec fn view(&self) -> Seq<u8> {
        self.bytes@
    }
}

impl HardwareAddr {
    /// The address made of the given six bytes, in order.
    pub fn from_bytes(bytes: [u8; EUI48_LEN]) -> (res: Self)
        ensures
            res@ == bytes@,
    {
        Self { bytes }
    }

    /// The address in the dashed lower-case hexadecimal form `xx-xx-xx-xx-xx-xx`.
    pub fn to_string(&self) -> (res: String)
        ensures
            res@ == mac_string(self@),
            res@.len() == 17,
    {
        let mut s = String::new();
        let mut i: usize = 0;
        while i < EUI48_LEN
            invariant
                0 <= i <= EUI48_LEN,
                self.bytes@.len() == EUI48_LEN,
                s@ == mac_string(self.bytes@.take(i as int)),
            decreases EUI48_LEN - i,
        {
            let b = self.bytes[i];
            if i > 0 {
                push_char(&mut s, '-');
            }
            push_char(&mut s, exec_hex_digit(b / 16));
            push_char(&mut s, exec_hex_digit(b % 16));
            proof {
                let next = self.bytes@.take(i + 1);
                assert(next.drop_last() =~= self.bytes@.take(i as int));
                assert(next.last() == b);
                if i == 0 {
                    assert(next.len() == 1);
                }
            }
            i = i + 1;
        }
        proof {
            assert(self.bytes@.take(EUI48_LEN as int) =~= self.bytes@);
            lemma_mac_string_len(self.bytes@);
        }
        s
    }
}

/// A dashed string of `n > 0` bytes has `3 * n - 1` characters.
pub proof fn lemma_mac_string_len(bytes: Seq<u8>)
    requires
        bytes.len() > 0,
    ensures
        mac_string(bytes).len() == 3 * bytes.len() - 1,
    decreases bytes.len(),
{
    if bytes.len() > 1 {
        lemma_mac_string_len(bytes.drop_last());
    }
}

proof fn lemma_hex_byte_injective(a: u8, b: u8)
    requires
        hex_byte(a) == hex_byte(b),
    ensures
        a == b,
{
    assert(hex_byte(a)[0] == hex_byte(b)[0]);
    assert(hex_byte(a)[1] == hex_byte(b)[1]);
    assert(a / 16 == b / 16);
    assert(a % 16 == b % 16);
}

/// Formatting loses nothing: two byte sequences of the same length that
/// format to the same dashed string are equal.
pub proof fn lemma_mac_string_injective(a: Seq<u8>, b: Seq<u8>)
    requires
        a.len() == b.len(),
        mac_string(a) == mac_string(b),
    ensures
        a == b,
    decreases a.len(),
{
    if a.len() == 0 {
        assert(a =~= b);
    } else if a.len() == 1 {
        lemma_hex_byte_injective(a[0], b[0]);
        assert(a =~= b);
    } else {
        let pa = mac_string(a.drop_last());
        let pb = mac_string(b.drop_last());
        lemma_mac_string_len(a.drop_last());
        lemma_mac_string_len(b.drop_last());
        let n: int = pa.len() as int;
        assert(mac_string(a).subrange(0, n) =~= pa);
        assert(mac_string(b).subrange(0, n) =~= pb);
        assert(mac_string(a).subrange(n + 1, n + 3) =~= hex_byte(a.last()));
        assert(mac_string(b).subrange(n + 1, n + 3) =~= hex_byte(b.last()));
        lemma_mac_string_injective(a.drop_last(), b.drop_last());
        lemma_hex_byte_injective(a.last(), b.last());
        assert(a =~= a.drop_last().push(a.last()));
        assert(b =~= b.drop_last().push(b.last()));
    }
}

/// The value of a lower-case hexadecimal digit.
pub open spec fn hex_value(c: char) -> int {
    if 48 <= (c as int) <= 57 {
        (c as int) - 48
    } else {
        (c as int) - 87
    }
}

/// The byte that a group of two hexadecimal digits denotes.
pub open spec fn parse_hex_byte(group: Seq<char>) -> int {
    16 * hex_value(group[0]) + hex_value(group[1])
}

proof fn lemma_hex_digit_value(n: u8)
    requires
        n < 16,
    ensures
        hex_value(hex_digit(n)) == n,
{
}

/// Where each character of a dashed string comes from: the group of byte
/// `i` starts at `3 * i`, and a dash follows every group but the last.
pub proof fn lemma_mac_string_index(bytes: Seq<u8>, i: int)
    requires
        0 <= i < bytes.len(),
    ensures
        mac_string(bytes).len() == 3 * bytes.len() - 1,
        mac_string(bytes)[3 * i] == hex_digit(bytes[i] / 16),
        mac_string(bytes)[3 * i + 1] == hex_digit(bytes[i] % 16),
        i < bytes.len() - 1 ==> mac_string(bytes)[3 * i + 2] == '-',
    decreases bytes.len(),
{
    lemma_mac_string_len(bytes);
    if bytes.len() > 1 {
        lemma_mac_string_len(bytes.drop_last());
        if i < bytes.len() - 1 {
            lemma_mac_string_index(bytes.drop_last(), i);
        }
    }
}

/// Each two-digit group of a dashed string parses back to its byte, and
/// the groups are separated by dashes.
pub proof fn mac_string_parses_back(bytes: Seq<u8>)
    requires
        bytes.len() > 0,
    ensures
        mac_string(bytes).len() == 3 * bytes.len() - 1,
        forall|i: int|
            0 <= i < bytes.len() ==> parse_hex_byte(#[trigger] mac_string(bytes).subrange(3 * i, 3 * i + 2))
                == bytes[i],
        forall|i: int| 0 <= i < bytes.len() - 1 ==> #[trigger] mac_string(bytes)[3 * i + 2] == '-',
{
    lemma_mac_string_len(bytes);
    assert forall|i: int| 0 <= i < bytes.len() implies parse_hex_byte(
        #[trigger] mac_string(bytes).subrange(3 * i, 3 * i + 2),
    ) == bytes[i] by {
        lemma_mac_string_index(bytes, i);
        lemma_hex_digit_value(bytes[i] / 16);
        lemma_hex_digit_value(bytes[i] % 16);
    }
    assert forall|i: int| 0 <= i < bytes.len() - 1 implies #[trigger] mac_string(bytes)[3 * i + 2]
        == '-' by {
        lemma_mac_string_index(bytes, i);
    }
}

/// Every character of a dashed address string is a lower-case hexadecimal
/// digit (`0`-`9`, `a`-`f`) or a dash; the two digits of byte `i`, at
/// positions `3 * i` and `3 * i + 1`, are its high and low nibbles, a nibble
/// `n` written as `'0' + n` below ten and as `'a' + (n - 10)` from ten on.
pub proof fn mac_string_is_lower_hex(bytes: Seq<u8>)
    requires
        bytes.len() > 0,
    ensures
        mac_string(bytes).len() == 3 * bytes.len() - 1,
        forall|i: int|
            0 <= i < bytes.len() ==> {
                &&& (#[trigger] mac_string(bytes)[3 * i]) as int == if bytes[i] / 16 < 10 {
                    48 + bytes[i] / 16
                } else {
                    97 + (bytes[i] / 16 - 10)
                }
                &&& mac_string(bytes)[3 * i + 1] as int == if bytes[i] % 16 < 10 {
                    48 + bytes[i] % 16
                } else {
                    97 + (bytes[i] % 16 - 10)
                }
            },
        forall|j: int|
            0 <= j < mac_string(bytes).len() ==> {
                let c = (#[trigger] mac_string(bytes)[j]) as int;
                (48 <= c <= 57) || (97 <= c <= 102) || c == 45
            },
{
    lemma_mac_string_len(bytes);
    assert forall|i: int| 0 <= i < bytes.len() implies {
        &&& (#[trigger] mac_string(bytes)[3 * i]) as int == if bytes[i] / 16 < 10 {
            48 + bytes[i] / 16
        } else {
            97 + (bytes[i] / 16 - 10)
        }
        &&& mac_string(bytes)[3 * i + 1] as int == if bytes[i] % 16 < 10 {
            48 + bytes[i] % 16
        } else {
            97 + (bytes[i] % 16 - 10)
        }
    } by {
        lemma_mac_string_index(bytes, i);
    }
    assert forall|j: int| 0 <= j < mac_string(bytes).len() implies {
        let c = (#[trigger] mac_string(bytes)[j]) as int;
        (48 <= c <= 57) || (97 <= c <= 102) || c == 45
    } by {
        let i = j / 3;
        assert(0 <= i < bytes.len());
        lemma_mac_string_index(bytes, i);
        assert(j == 3 * i || j == 3 * i + 1 || j == 3 * i + 2);
    }
}

/// The string of a hardware address reads back as the address: group `i`
/// of `xx-xx-xx-xx-xx-xx` parses to byte `i`.
pub proof fn hardware_addr_string_round_trip(a: HardwareAddr)
    ensures
        a@.len() == EUI48_LEN,
        forall|i: int|
            0 <= i < EUI48_LEN ==> parse_hex_byte(#[trigger] mac_string(a@).subrange(3 * i, 3 * i + 2))
                == a@[i],
{
    mac_string_parses_back(a@);
}

/// Two hardware addresses have equal strings exactly when they are the same address.
pub proof fn hardware_addr_string_is_faithful(a: HardwareAddr, b: HardwareAddr)
    ensures
        mac_string(a@) == mac_string(b@) <==> a@ == b@,
{
    if mac_string(a@) == mac_string(b@) {
        lemma_mac_string_injective(a@, b@);
    }
}

/// Bit of the flag: the interface is up.
pub const UP_BIT: u32 = 0x1;
/// Bit of the flag: the interface supports broadcast.
pub const BROADCAST_BIT: u32 = 0x2;
/// Bit of the flag: the interface is a loopback interface.
pub const LOOPBACK_BIT: u32 = 0x8;
/// Bit of the flag: the interface is part of a point-to-point link.
pub const POINT_TO_POINT_BIT: u32 = 0x10;
/// Bit of the flag: the interface supports multicast.
pub const MULTICAST_BIT: u32 = 0x1000;
/// The bits of every defined flag.
pub const ALL_FLAG_BITS: u32 = 0x101B;

/// Whether every set bit of `bits` belongs to a defined flag.
pub open spec fn known_bits(bits: u32) -> bool {
    bits & !ALL_FLAG_BITS == 0
}

/// Status flags of a network interface; a set of the defined flags only.
#[derive(Clone, Copy, Debug, PartialEq, Eq, PartialOrd, Ord, Hash)]
pub struct Flags {
    bits: u32,
}

impl View for Flags {
    type V = u32;

    closed spec fn view(&self) -> u32 {
        self.bits
    }
}

impl Flags {
    #[verifier::type_invariant]
    closed spec fn only_known_bits(self) -> bool {
        known_bits(self.bits)
    }

    fn single(bit: u32) -> (res: Flags)
        requires
            bit == UP_BIT || bit == BROADCAST_BIT || bit == LOOPBACK_BIT || bit == POINT_TO_POINT_BIT
                || bit == MULTICAST_BIT,
        ensures
            res@ == bit,
    {
        proof {
            assert(known_bits(0x1u32) && known_bits(0x2u32) && known_bits(0x8u32) && known_bits(
                0x10u32,
            ) && known_bits(0x1000u32)) by (bit_vector);
        }
        Flags { bits: bit }
    }

    /// The interface is up.
    pub fn up() -> (res: Flags)
        ensures
            res@ == UP_BIT,
    {
        Self::single(UP_BIT)
    }

    /// The interface supports broadcast.
    pub fn broadcast() -> (res: Flags)
        ensures
            res@ == BROADCAST_BIT,
    {
        Self::single(BROADCAST_BIT)
    }

    /// The interface is a loopback interface.
    pub fn loopback() -> (res: Flags)
        ensures
            res@ == LOOPBACK_BIT,
    {
        Self::single(LOOPBACK_BIT)
    }

    /// The interface is part of a point-to-point link.
    pub fn point_to_point() -> (res: Flags)
        ensures
            res@ == POINT_TO_POINT_BIT,
    {
        Self::single(POINT_TO_POINT_BIT)
    }

    /// The interface supports multicast.
    pub fn multicast() -> (res: Flags)
        ensures
            res@ == MULTICAST_BIT,
    {
        Self::single(MULTICAST_BIT)
    }

    /// The set with no flag.
    pub fn empty() -> (res: Flags)
        ensures
            res@ == 0,
    {
        proof {
            assert(known_bits(0u32)) by (bit_vector);
        }
        Flags { bits: 0 }
    }

    /// The set of all defined flags.
    pub fn all() -> (res: Flags)
        ensures
            res@ == ALL_FLAG_BITS,
    {
        proof {
            assert(known_bits(0x101Bu32)) by (bit_vector);
        }
        Flags { bits: ALL_FLAG_BITS }
    }

    /// The raw bits of the set; only bits of defined flags are ever set.
    pub fn bits(&self) -> (res: u32)
        ensures
            res == self@,
            known_bits(res),
    {
        proof {
            use_type_invariant(self);
        }
        self.bits
    }

    /// The set with exactly the given bits, or `None` where a bit that
    /// belongs to no defined flag is set.
    pub fn from_bits(bits: u32) -> (res: Option<Flags>)
        ensures
            res is Some <==> known_bits(bits),
            res matches Some(f) ==> f@ == bits,
    {
        if bits & !ALL_FLAG_BITS == 0 {
            Some(Flags { bits })
        } else {
            None
        }
    }

    /// The set of the given bits that belong to a defined flag; other bits are dropped.
    pub fn from_bits_truncate(bits: u32) -> (res: Flags)
        ensures
            res@ == bits & ALL_FLAG_BITS,
    {
        proof {
            masked_bits_are_known(bits);
        }
        Flags { bits: bits & ALL_FLAG_BITS }
    }

    /// Whether the set holds every defined flag.
    pub fn is_all(&self) -> (res: bool)
        ensures
            res == (self@ == ALL_FLAG_BITS),
    {
        self.bits == ALL_FLAG_BITS
    }

    /// Whether the two sets share a flag.
    pub fn intersects(&self, other: Flags) -> (res: bool)
        ensures
            res == (self@ & other@ != 0),
    {
        self.bits & other.bits != 0
    }

    /// The flags that are in both sets.
    pub fn intersection(self, other: Flags) -> (res: Flags)
        ensures
            res@ == self@ & other@,
    {
        proof {
            use_type_invariant(&self);
            let a = self.bits;
            let b = other.bits;
            assert(known_bits(a) ==> known_bits(a & b)) by (bit_vector);
        }
        Flags { bits: self.bits & other.bits }
    }

    /// The flags of this set that are not in `other`.
    pub fn difference(self, other: Flags) -> (res: Flags)
        ensures
            res@ == self@ & !other@,
    {
        proof {
            use_type_invariant(&self);
            let a = self.bits;
            let b = other.bits;
            assert(known_bits(a) ==> known_bits(a & !b)) by (bit_vector);
        }
        Flags { bits: self.bits & !other.bits }
    }

    /// The flags that are in exactly one of the two sets.
    pub fn symmetric_difference(self, other: Flags) -> (res: Flags)
        ensures
            res@ == self@ ^ other@,
    {
        proof {
            use_type_invariant(&self);
            use_type_invariant(&other);
            let a = self.bits;
            let b = other.bits;
            assert(known_bits(a) && known_bits(b) ==> known_bits(a ^ b)) by (bit_vector);
        }
        Flags { bits: self.bits ^ other.bits }
    }

    /// The defined flags that are not in this set.
    pub fn complement(self) -> (res: Flags)
        ensures
            res@ == !self@ & ALL_FLAG_BITS,
    {
        proof {
            masked_bits_are_known(!self.bits);
        }
        Flags { bits: !self.bits & ALL_FLAG_BITS }
    }

    /// Adds the flags of `other` to this set.
    pub fn insert(&mut self, other: Flags)
        ensures
            final(self)@ == old(self)@ | other@,
    {
        *self = self.union(other);
    }

    /// Removes the flags of `other` from this set.
    pub fn remove(&mut self, other: Flags)
        ensures
            final(self)@ == old(self)@ & !other@,
    {
        *self = self.difference(other);
    }

    /// Flips the flags of `other` in this set.
    pub fn toggle(&mut self, other: Flags)
        ensures
            final(self)@ == old(self)@ ^ other@,
    {
        *self = self.symmetric_difference(other);
    }

    /// Adds the flags of `other` where `value` holds, removes them otherwise.
    pub fn set(&mut self, other: Flags, value: bool)
        ensures
            final(self)@ == if value {
                old(self)@ | other@
            } else {
                old(self)@ & !other@
            },
    {
        if value {
            self.insert(other);
        } else {
            self.remove(other);
        }
    }

    /// Whether every flag of `other` is in this set.
    pub fn contains(&self, other: Flags) -> (res: bool)
        ensures
            res == (self@ & other@ == other@),
    {
        self.bits & other.bits == other.bits
    }

    /// Whether the set holds no flag.
    pub fn is_empty(&self) -> (res: bool)
        ensures
            res == (self@ == 0),
    {
        self.bits == 0
    }

    /// The flags that are in either set.
    pub fn union(self, other: Flags) -> (res: Flags)
        ensures
            res@ == self@ | other@,
    {
        proof {
            use_type_invariant(&self);
            use_type_invariant(&other);
            let a = self.bits;
            let b = other.bits;
            assert(known_bits(a) && known_bits(b) ==> known_bits(a | b)) by (bit_vector);
        }
        Flags { bits: self.bits | other.bits }
    }
}

/// Keeping only the bits of defined flags always leaves a valid set, so a
/// set built from masked bits cannot fail.
pub proof fn masked_bits_are_known(raw: u32)
    ensures
        known_bits(raw & ALL_FLAG_BITS),
{
    assert(known_bits(raw & 0x101Bu32)) by (bit_vector);
}

/// Masking with all defined flags keeps exactly the bits of UP (0x1),
/// BROADCAST (0x2), LOOPBACK (0x8), POINT_TO_POINT (0x10) and MULTICAST
/// (0x1000) and clears every other bit.
pub proof fn masking_keeps_exactly_the_defined_flags(raw: u32)
    ensures
        (raw & ALL_FLAG_BITS) & 0x1 == raw & 0x1,
        (raw & ALL_FLAG_BITS) & 0x2 == raw & 0x2,
        (raw & ALL_FLAG_BITS) & 0x8 == raw & 0x8,
        (raw & ALL_FLAG_BITS) & 0x10 == raw & 0x10,
        (raw & ALL_FLAG_BITS) & 0x1000 == raw & 0x1000,
        (raw & ALL_FLAG_BITS) & !0x101Bu32 == 0,
{
    assert(ALL_FLAG_BITS == 0x101Bu32);
    assert((raw & 0x101Bu32) & 0x1 == raw & 0x1) by (bit_vector);
    assert((raw & 0x101Bu32) & 0x2 == raw & 0x2) by (bit_vector);
    assert((raw & 0x101Bu32) & 0x8 == raw & 0x8) by (bit_vector);
    assert((raw & 0x101Bu32) & 0x10 == raw & 0x10) by (bit_vector);
    assert((raw & 0x101Bu32) & 0x1000 == raw & 0x1000) by (bit_vector);
    assert((raw & 0x101Bu32) & !0x101Bu32 == 0) by (bit_vector);
}

/// The union of two sets contains each of them.
pub proof fn union_contains_operands(a: Flags, b: Flags)
    ensures
        (a@ | b@) & a@ == a@,
        (a@ | b@) & b@ == b@,
{
    let x = a@;
    let y = b@;
    assert((x | y) & x == x && (x | y) & y == y) by (bit_vector);
}

} // verus!
