use vstd::prelude::*;
use vstd::slice::*;
use vstd::utf8::*;

use crate::err::ErrorKind;
use crate::text::{lemma_text_of_bytes, utf8_text};

verus! {

/// A decoded request: who is to be whitelisted, and the credential offered.
#[derive(Debug)]
pub struct AuthRequest {
    pub username: String,
    pub credential: Vec<u8>,
}

/// The request frame `[n][n bytes of UTF-8 username][credential...]`, read as
/// a username and a credential, or the reason it cannot be read.
pub open spec fn decode_spec(m: Seq<u8>) -> Result<(Seq<char>, Seq<u8>), ErrorKind> {
    if m.len() == 0 {
        Err(ErrorKind::MissingInitialLength)
    } else if m[0] > m.len() - 1 {
        Err(ErrorKind::UnexpectedElement)
    } else {
        let name = m.subrange(1, 1 + m[0]);
        if !valid_utf8(name) {
            Err(ErrorKind::InvalidUsername)
        } else {
            Ok((decode_utf8(name), m.subrange(1 + m[0], m.len() as int)))
        }
    }
}

/// A username fits in a frame when its UTF-8 encoding is at most 255 bytes long.
pub open spec fn username_fits(username: Seq<char>) -> bool {
    encode_utf8(username).len() <= 255
}

/// The frame that carries `username` and `credential`.
pub open spec fn encode_spec(username: Seq<char>, credential: Seq<u8>) -> Seq<u8> {
    seq![encode_utf8(username).len() as u8] + encode_utf8(username) + credential
}

impl AuthRequest {
    /// The request as a pair of username text and credential bytes.
    pub open spec fn pair(&self) -> (Seq<char>, Seq<u8>) {
        (self.username@, self.credential@)
    }
}

/// Reads one request frame.
pub fn decode(msg: &[u8]) -> (r: Result<AuthRequest, ErrorKind>)
    ensures
        match r {
            Ok(req) => decode_spec(msg@) == Ok::<_, ErrorKind>(req.pair()),
            Err(e) => decode_spec(msg@) == Err::<(Seq<char>, Seq<u8>), _>(e),
        },
{
    if msg.len() == 0 {
        return Err(ErrorKind::MissingInitialLength);
    }
    let n = msg[0] as usize;
    if n > msg.len() - 1 {
        return Err(ErrorKind::UnexpectedElement);
    }
    let name = slice_subrange(msg, 1, 1 + n);
    match utf8_text(name) {
        None => Err(ErrorKind::InvalidUsername),
        Some(text) => {
            proof {
                lemma_text_of_bytes(text, name@);
            }
            let username = text.to_owned();
            let credential = slice_to_vec(slice_subrange(msg, 1 + n, msg.len()));
            Ok(AuthRequest { username, credential })
        },
    }
}

/// Builds the frame for a request; `None` when the username is longer than
/// the one length byte can announce.
pub fn encode(username: &str, credential: &[u8]) -> (r: Option<Vec<u8>>)
    ensures
        r is Some <==> username_fits(username@),
        r matches Some(m) ==> m@ == encode_spec(username@, credential@),
{
    let name = username.as_bytes();
    if name.len() > 255 {
        return None;
    }
    let mut out: Vec<u8> = Vec::new();
    out.push(name.len() as u8);
    let mut i: usize = 0;
    while i < name.len()
        invariant
            i <= name@.len(),
            out@ == seq![name@.len() as u8] + name@.subrange(0, i as int),
        decreases name@.len() - i,
    {
        out.push(name[i]);
        i = i + 1;
        assert(out@ =~= seq![name@.len() as u8] + name@.subrange(0, i as int));
    }
    let mut j: usize = 0;
    while j < credential.len()
        invariant
            j <= credential@.len(),
            out@ == seq![name@.len() as u8] + name@ + credential@.subrange(0, j as int),
        decreases credential@.len() - j,
    {
        out.push(credential[j]);
        j = j + 1;
        assert(out@ =~= seq![name@.len() as u8] + name@ + credential@.subrange(0, j as int));
    }
    assert(name@.subrange(0, name@.len() as int) =~= name@);
    assert(credential@.subrange(0, credential@.len() as int) =~= credential@);
    Some(out)
}

/// Decoding the frame built for a username that fits, and any credential,
/// gives back exactly that username and credential.
pub proof fn lemma_round_trip(username: Seq<char>, credential: Seq<u8>)
    requires
        username_fits(username),
    ensures
        decode_spec(encode_spec(username, credential)) == Ok::<_, ErrorKind>((username, credential)),
{
    let e = encode_utf8(username);
    let m = encode_spec(username, credential);
    assert(m[0] == e.len());
    assert(m.subrange(1, 1 + m[0]) =~= e);
    assert(m.subrange(1 + m[0], m.len() as int) =~= credential);
    encode_utf8_valid_utf8(username);
    encode_utf8_decode_utf8(username);
}

/// An empty frame is refused for want of a length byte.
pub proof fn lemma_empty_frame(m: Seq<u8>)
    requires
        m.len() == 0,
    ensures
        decode_spec(m) == Err::<(Seq<char>, Seq<u8>), _>(ErrorKind::MissingInitialLength),
{
}

/// A frame whose length byte announces more username bytes than follow it is
/// refused as truncated.
pub proof fn lemma_truncated_frame(m: Seq<u8>)
    requires
        m.len() > 0,
        m[0] > m.len() - 1,
    ensures
        decode_spec(m) == Err::<(Seq<char>, Seq<u8>), _>(ErrorKind::UnexpectedElement),
{
}

} // verus!
