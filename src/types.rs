//! Fixed-width identifiers and their canonical hexadecimal text.

use vstd::prelude::*;

verus! {

/// The lower-case hexadecimal digit for a value below 16.
pub open spec fn hex_digit(n: u8) -> char {
    if n < 10 {
        (('0' as u8) + n) as char
    } else {
        (('a' as u8) + (n - 10)) as char
    }
}

/// Two lower-case hexadecimal digits per byte, most significant digit first.
pub open spec fn hex_of(b: Seq<u8>) -> Seq<char>
    decreases b.len(),
{
    if b.len() == 0 {
        Seq::empty()
    } else {
        hex_of(b.drop_last()) + seq![hex_digit(b.last() / 16), hex_digit(b.last() % 16)]
    }
}

fn hex_digit_str(n: u8) -> (r: &'static str)
    requires
        n < 16,
    ensures
        r@ == seq![hex_digit(n)],
{
    proof {
        reveal_strlit("0");
        reveal_strlit("1");
        reveal_strlit("2");
        reveal_strlit("3");
        reveal_strlit("4");
        reveal_strlit("5");
        reveal_strlit("6");
        reveal_strlit("7");
        reveal_strlit("8");
        reveal_strlit("9");
        reveal_strlit("a");
        reveal_strlit("b");
        reveal_strlit("c");
        reveal_strlit("d");
        reveal_strlit("e");
        reveal_strlit("f");
    }
    if n == 0 {
        "0"
    } else if n == 1 {
        "1"
    } else if n == 2 {
        "2"
    } else if n == 3 {
        "3"
    } else if n == 4 {
        "4"
    } else if n == 5 {
        "5"
    } else if n == 6 {
        "6"
    } else if n == 7 {
        "7"
    } else if n == 8 {
        "8"
    } else if n == 9 {
        "9"
    } else if n == 10 {
        "a"
    } else if n == 11 {
        "b"
    } else if n == 12 {
        "c"
    } else if n == 13 {
        "d"
    } else if n == 14 {
        "e"
    } else {
        "f"
    }
}

/// Canonical hexadecimal text of a byte string.
pub fn to_hex(b: &[u8]) -> (r: String)
    ensures
        r@ == hex_of(b@),
{
    let mut r = String::new();
    let mut i: usize = 0;
    while i < b.len()
        invariant
            i <= b@.len(),
            r@ == hex_of(b@.take(i as int)),
        decreases b@.len() - i,
    {
        assert(b@.take(i as int + 1).drop_last() == b@.take(i as int));
        r.append(hex_digit_str(b[i] / 16));
        r.append(hex_digit_str(b[i] % 16));
        i = i + 1;
    }
    assert(b@.take(b@.len() as int) == b@);
    r
}

/// Text of a bit string, one character per bit.
pub open spec fn bits_text(bits: Seq<bool>) -> Seq<char> {
    Seq::new(bits.len(), |i: int| if bits[i] { '1' } else { '0' })
}

/// Size in bytes of an encoded transaction identifier.
pub const TXID_ENCODED_SIZE: u32 = 32;

/// Size in bytes of the network tag.
pub const MAGIC_BYTES_LENGTH: usize = 2;

/// A 32-byte transaction identifier, compared and ordered by its raw bytes.
#[derive(Clone, Copy, Debug, PartialEq, Eq, PartialOrd, Ord, Hash)]
pub struct Txid(pub [u8; 32]);

impl Txid {
    /// Canonical hexadecimal text of the identifier.
    pub fn to_hex(&self) -> (r: String)
        ensures
            r@ == hex_of(self.0@),
    {
        to_hex(&self.0)
    }
}

/// The two-byte tag that prefixes protocol messages anchored in the base chain.
#[derive(Clone, Copy, Debug, PartialEq, Eq, PartialOrd, Ord, Hash)]
pub struct MagicBytes(pub [u8; MAGIC_BYTES_LENGTH]);

impl MagicBytes {
    /// The mainnet tag, the bytes of `id`.
    pub fn default() -> (r: MagicBytes)
        ensures
            r.0@ == seq![105u8, 100u8],
    {
        let r = MagicBytes([105, 100]);
        assert(r.0@ =~= seq![105u8, 100u8]);
        r
    }

    /// Canonical hexadecimal text of the tag.
    pub fn to_hex(&self) -> (r: String)
        ensures
            r@ == hex_of(self.0@),
    {
        to_hex(&self.0)
    }
}

/// The flavours of the bitcoin network.
#[derive(Clone, Copy, Debug, PartialEq, Eq, Structural)]
pub enum BitcoinNetworkType {
    Mainnet,
    Testnet,
    Regtest,
}

/// Hash of a base-chain block header.
#[derive(Clone, Copy, Debug, PartialEq, Eq, PartialOrd, Ord, Hash)]
pub struct BurnchainHeaderHash(pub [u8; 32]);

impl BurnchainHeaderHash {
    /// Canonical hexadecimal text of the hash.
    pub fn to_hex(&self) -> (r: String)
        ensures
            r@ == hex_of(self.0@),
    {
        to_hex(&self.0)
    }
}

/// Identifier of a block of the layer-1 chain that events are replayed from.
#[derive(Clone, Copy, Debug, PartialEq, Eq, PartialOrd, Ord, Hash)]
pub struct StacksBlockId(pub [u8; 32]);

/// Hash of an overlay-chain block header.
#[derive(Clone, Copy, Debug, PartialEq, Eq, PartialOrd, Ord, Hash)]
pub struct BlockHeaderHash(pub [u8; 32]);

/// A 20-byte hash of a public key or script.
#[derive(Clone, Copy, Debug, PartialEq, Eq, PartialOrd, Ord, Hash)]
pub struct Hash160(pub [u8; 20]);

/// A recoverable 65-byte signature.
#[derive(Clone, Copy, Debug, PartialEq, Eq)]
pub struct MessageSignature(pub [u8; 65]);

/// An address: a version byte and the hash it commits to.
#[derive(Clone, Copy, Debug, PartialEq, Eq, PartialOrd, Ord, Hash)]
pub struct StacksAddress {
    pub version: u8,
    pub bytes: Hash160,
}

/// How the public keys behind an address are hashed.
#[derive(Clone, Copy, Debug, PartialEq, Eq, Structural, Hash)]
pub enum AddressHashMode {
    SerializeP2PKH,
    SerializeP2SH,
    SerializeP2WPKH,
    SerializeP2WSH,
}

/// A public key in its serialized form.
#[derive(Clone, Debug, PartialEq, Eq, Hash)]
pub struct StacksPublicKey {
    pub bytes: Vec<u8>,
}

/// Which reward cycles of a fork had a known anchor block, one bit per cycle.
#[derive(Clone, Debug, PartialEq, Eq, Hash)]
pub struct PoxId(pub Vec<bool>);

impl PoxId {
    /// The bits as text, `1` for a cycle with a known anchor block and `0` otherwise.
    pub fn to_text(&self) -> (r: String)
        ensures
            r@ == bits_text(self.0@),
    {
        let mut r = String::new();
        let mut i: usize = 0;
        while i < self.0.len()
            invariant
                i <= self.0@.len(),
                r@ == bits_text(self.0@.take(i as int)),
            decreases self.0@.len() - i,
        {
            proof {
                reveal_strlit("1");
                reveal_strlit("0");
            }
            let ghost prev = r@;
            if self.0[i] {
                r.append("1");
            } else {
                r.append("0");
            }
            assert(r@ =~= prev.push(if self.0@[i as int] { '1' } else { '0' }));
            assert(r@ =~= bits_text(self.0@.take(i as int + 1)));
            i = i + 1;
        }
        assert(self.0@.take(self.0@.len() as int) == self.0@);
        r
    }
}

} // verus!
