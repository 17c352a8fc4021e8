//! DIGEST-MD5 token structures, which hold secret material while a round is
//! in progress, and the operations that wipe them once they are consumed.
use vstd::prelude::*;

verus! {

/// A parsed DIGEST-MD5 server challenge.
#[derive(Debug)]
pub struct DigestMd5Challenge {
    pub realms: Vec<Vec<u8>>,
    pub nonce: Vec<u8>,
    pub qops: u32,
    pub stale: bool,
    pub servermaxbuf: u64,
    pub utf8: bool,
    pub ciphers: u32,
}

/// A parsed DIGEST-MD5 client response.
#[derive(Debug)]
pub struct DigestMd5Response {
    pub username: Vec<u8>,
    pub realm: Vec<u8>,
    pub nonce: Vec<u8>,
    pub cnonce: Vec<u8>,
    pub nc: u64,
    pub qop: u32,
    pub digesturi: Vec<u8>,
    pub clientmaxbuf: u64,
    pub utf8: bool,
    pub cipher: u32,
    pub authzid: Vec<u8>,
    pub response: Vec<u8>,
}

/// A parsed DIGEST-MD5 server confirmation.
#[derive(Debug)]
pub struct DigestMd5Finish {
    pub rspauth: Vec<u8>,
}

/// A buffer of `n` zero bytes.
pub open spec fn zeros(n: nat) -> Seq<u8> {
    Seq::new(n, |k: int| 0u8)
}

/// `b` is `a` with every byte overwritten by zero.
pub open spec fn wiped(a: Seq<u8>, b: Seq<u8>) -> bool {
    b == zeros(a.len())
}

impl DigestMd5Challenge {
    /// Nothing is left: no realm, no nonce, every flag and number zero.
    pub open spec fn is_cleared(&self) -> bool {
        &&& self.realms@.len() == 0
        &&& self.nonce@.len() == 0
        &&& self.qops == 0 && !self.stale && self.servermaxbuf == 0 && !self.utf8
            && self.ciphers == 0
    }
}

impl DigestMd5Response {
    /// `self` is `before` with every name field emptied, the fixed-size
    /// response digest overwritten by zero, and every flag and number reset.
    pub open spec fn is_wipe_of(&self, before: DigestMd5Response) -> bool {
        &&& self.username@.len() == 0 && self.realm@.len() == 0 && self.nonce@.len() == 0
        &&& self.cnonce@.len() == 0 && self.digesturi@.len() == 0 && self.authzid@.len() == 0
        &&& wiped(before.response@, self.response@)
        &&& self.nc == 0 && self.qop == 0 && self.clientmaxbuf == 0 && !self.utf8
            && self.cipher == 0
    }
}

impl DigestMd5Finish {
    /// `self` is `before` with the confirmation overwritten by zero.
    pub open spec fn is_wipe_of(&self, before: DigestMd5Finish) -> bool {
        wiped(before.rspauth@, self.rspauth@)
    }
}

/// Overwrites every byte of a buffer with zero, keeping its length.
pub fn zero_fill(buf: &mut Vec<u8>)
    ensures
        final(buf)@ == zeros(old(buf)@.len()),
{
    let n = buf.len();
    let mut i: usize = 0;
    while i < n
        invariant
            0 <= i <= n,
            buf@.len() == n,
            forall|k: int| 0 <= k < i ==> buf@[k] == 0,
        decreases n - i,
    {
        buf.set(i, 0);
        i = i + 1;
    }
    assert(buf@ =~= zeros(n as nat));
}

/// Overwrites every byte of a buffer with zero, then empties it.
pub fn wipe(buf: &mut Vec<u8>)
    ensures
        final(buf)@.len() == 0,
{
    zero_fill(buf);
    buf.clear();
}

/// Wipes a challenge: each realm and the nonce are overwritten by zero and
/// released, and every other field is reset.
pub fn digest_md5_free_challenge(c: &mut DigestMd5Challenge)
    ensures
        final(c).is_cleared(),
{
    while c.realms.len() > 0
        decreases c.realms@.len(),
    {
        let mut realm = c.realms.pop().unwrap();
        wipe(&mut realm);
    }
    wipe(&mut c.nonce);
    c.qops = 0;
    c.stale = false;
    c.servermaxbuf = 0;
    c.utf8 = false;
    c.ciphers = 0;
}

/// Wipes a response: each name field is overwritten by zero and emptied,
/// the response digest is overwritten by zero, and every other field is
/// reset.
pub fn digest_md5_free_response(r: &mut DigestMd5Response)
    ensures
        final(r).is_wipe_of(*old(r)),
{
    wipe(&mut r.username);
    wipe(&mut r.realm);
    wipe(&mut r.nonce);
    wipe(&mut r.cnonce);
    wipe(&mut r.digesturi);
    wipe(&mut r.authzid);
    zero_fill(&mut r.response);
    r.nc = 0;
    r.qop = 0;
    r.clientmaxbuf = 0;
    r.utf8 = false;
    r.cipher = 0;
}

/// Wipes a confirmation.
pub fn digest_md5_free_finish(f: &mut DigestMd5Finish)
    ensures
        final(f).is_wipe_of(*old(f)),
{
    zero_fill(&mut f.rspauth);
}

} // verus!
