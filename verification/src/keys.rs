use vstd::prelude::*;

verus! {

/// Length in bytes of a WireGuard client private key.
pub const CLIENT_PRIV_KEY_SIZE_BYTES: usize = 32;

/// Length in bytes of a WireGuard peer public key.
pub const PEER_PUB_KEY_SIZE_BYTES: usize = 32;

/// A client private key of exactly [CLIENT_PRIV_KEY_SIZE_BYTES] bytes.
#[derive(Clone, Copy)]
pub struct WgClientPrivateKey(pub [u8; CLIENT_PRIV_KEY_SIZE_BYTES]);

/// A peer public key of exactly [PEER_PUB_KEY_SIZE_BYTES] bytes.
#[derive(Clone, Copy)]
pub struct WgPeerPublicKey(pub [u8; PEER_PUB_KEY_SIZE_BYTES]);

/// Error returned when a byte vector cannot become a key.
pub struct KeyConversionError(String);

impl KeyConversionError {
    pub closed spec fn text(&self) -> Seq<char> {
        self.0@
    }

    /// The human readable reason.
    pub fn message(&self) -> (r: &String)
        ensures
            r@ == self.text(),
    {
        &self.0
    }
}

/// Copies a byte sequence of the key length into a fixed size array.
fn copy_key_bytes(value: &Vec<u8>) -> (r: [u8; 32])
    requires
        value.len() == 32,
    ensures
        r@ == value@,
{
    let mut out: [u8; 32] = [0u8; 32];
    let mut i: usize = 0;
    while i < 32
        invariant
            0 <= i <= 32,
            value.len() == 32,
            forall|j: int| 0 <= j < i ==> out@[j] == value@[j],
        decreases 32 - i,
    {
        out[i] = value[i];
        i = i + 1;
    }
    assert(out@ =~= value@);
    out
}

/// Copies a fixed size array into a fresh vector.
fn key_bytes_to_vec(bytes: &[u8; 32]) -> (r: Vec<u8>)
    ensures
        r@ == bytes@,
{
    let mut out: Vec<u8> = Vec::new();
    let mut i: usize = 0;
    while i < 32
        invariant
            0 <= i <= 32,
            out@ =~= bytes@.subrange(0, i as int),
        decreases 32 - i,
    {
        out.push(bytes[i]);
        i = i + 1;
    }
    assert(out@ =~= bytes@);
    out
}

impl WgClientPrivateKey {
    /// Accepts exactly [CLIENT_PRIV_KEY_SIZE_BYTES] bytes.
    pub fn try_from_bytes(value: Vec<u8>) -> (r: Result<WgClientPrivateKey, KeyConversionError>)
        ensures
            value.len() == CLIENT_PRIV_KEY_SIZE_BYTES <==> r is Ok,
            r matches Ok(k) ==> k.0@ == value@ && key_from_bytes(value@) == Some(k.0@),
            r matches Err(e) ==> e.text() == "private key must be 32 bytes"@,
    {
        if value.len() == CLIENT_PRIV_KEY_SIZE_BYTES {
            Ok(WgClientPrivateKey(copy_key_bytes(&value)))
        } else {
            Err(KeyConversionError("private key must be 32 bytes".to_string()))
        }
    }

    /// The key as a byte vector.
    pub fn to_bytes(&self) -> (r: Vec<u8>)
        ensures
            r@ == self.0@,
    {
        key_bytes_to_vec(&self.0)
    }
}

impl WgPeerPublicKey {
    /// Accepts exactly [PEER_PUB_KEY_SIZE_BYTES] bytes.
    pub fn try_from_bytes(value: Vec<u8>) -> (r: Result<WgPeerPublicKey, KeyConversionError>)
        ensures
            value.len() == PEER_PUB_KEY_SIZE_BYTES <==> r is Ok,
            r matches Ok(k) ==> k.0@ == value@ && key_from_bytes(value@) == Some(k.0@),
            r matches Err(e) ==> e.text() == "peer public key must be 32 bytes"@,
    {
        if value.len() == PEER_PUB_KEY_SIZE_BYTES {
            Ok(WgPeerPublicKey(copy_key_bytes(&value)))
        } else {
            Err(KeyConversionError("peer public key must be 32 bytes".to_string()))
        }
    }

    /// The key as a byte vector.
    pub fn to_bytes(&self) -> (r: Vec<u8>)
        ensures
            r@ == self.0@,
    {
        key_bytes_to_vec(&self.0)
    }
}

/// The key a byte sequence stands for: the bytes themselves when there are
/// exactly 32 of them.
pub open spec fn key_from_bytes(bytes: Seq<u8>) -> Option<Seq<u8>> {
    if bytes.len() == 32 {
        Some(bytes)
    } else {
        None
    }
}

/// Converting a key to bytes and back gives the same key.
pub proof fn law_key_bytes_round_trip(key: [u8; 32])
    ensures
        key_from_bytes(key@) == Some(key@),
{
}

} // verus!
