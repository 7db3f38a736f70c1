//! The bearer credential attached to every call.

use vstd::prelude::*;
use vstd::string::*;
use crate::error::ClientError;

verus! {

/// A character that may stand in the token of an ASCII header value.
pub open spec fn is_token_char(c: char) -> bool {
    c == '\t' || (32 <= c as u32 && c as u32 <= 126)
}

/// A token can be sent when all its characters are ASCII header characters.
pub open spec fn valid_token(token: Seq<char>) -> bool {
    forall|i: int| 0 <= i < token.len() ==> is_token_char(#[trigger] token[i])
}

/// What tonic accepts in an ASCII metadata value: the bytes of the text are
/// tabs or at least 32 and not 127. A character beyond ASCII is encoded in bytes
/// from 128 up, so it passes.
pub open spec fn metadata_char(c: char) -> bool {
    c == '\t' || (32 <= c as u32 && c as u32 != 127)
}

pub open spec fn bearer(token: Seq<char>) -> Seq<char> {
    "Bearer "@ + token
}

/// The kind of call that a header is attached to.
#[derive(Clone, Copy, Debug, PartialEq, Eq)]
pub enum CallKind {
    Unary,
    Streaming,
}

/// Attaches `authorization: Bearer <token>` to each call.
#[derive(Clone, Debug)]
pub struct AuthInterceptor {
    token: String,
    header: String,
}

impl AuthInterceptor {
    pub closed spec fn token(&self) -> Seq<char> {
        self.token@
    }

    pub closed spec fn wf(&self) -> bool {
        self.header@ == bearer(self.token@) && valid_token(self.token@)
    }

    /// The header name and value attached to a call of kind `kind`.
    pub open spec fn attached(&self, kind: CallKind) -> (Seq<char>, Seq<char>) {
        ("authorization"@, bearer(self.token()))
    }

    /// Builds the interceptor; fails with `Auth` when the token cannot stand
    /// in an ASCII header value.
    pub fn new(token: String) -> (r: Result<AuthInterceptor, ClientError>)
        ensures
            r is Ok <==> valid_token(token@),
            r is Ok ==> r->Ok_0.wf() && r->Ok_0.token() == token@,
            r is Err ==> r->Err_0 is Auth,
    {
        let n = token.as_str().unicode_len();
        let mut i: usize = 0;
        while i < n
            invariant
                n == token@.len(),
                i <= n,
                forall|j: int| 0 <= j < i ==> is_token_char(#[trigger] token@[j]),
            decreases n - i,
        {
            let c = token.as_str().get_char(i);
            if !(c == '\t' || (' ' <= c && c <= '~')) {
                return Err(ClientError::Auth("token is not an ASCII header value".to_owned()));
            }
            i = i + 1;
        }
        let mut header = "Bearer ".to_owned();
        header.append(token.as_str());
        proof {
            reveal_strlit("Bearer ");
            assert forall|j: int| 0 <= j < header@.len() implies metadata_char(#[trigger] header@[j]) by {
                if j >= 7 {
                    assert(header@[j] == token@[j - 7]);
                }
            }
        }
        if !ascii_metadata_accepts(header.as_str()) {
            return Err(ClientError::Auth("token is not an ASCII header value".to_owned()));
        }
        Ok(AuthInterceptor { token, header })
    }

    /// The header to attach to a call of kind `kind`.
    pub fn attach(&self, kind: CallKind) -> (r: (String, String))
        requires
            self.wf(),
        ensures
            (r.0@, r.1@) == self.attached(kind),
    {
        proof {
            reveal_strlit("authorization");
        }
        ("authorization".to_owned(), self.header.clone())
    }

    /// Every call made with one interceptor carries byte-identical
    /// authorization headers, whatever its kind.
    pub proof fn lemma_same_header_for_every_call(&self, a: CallKind, b: CallKind)
        ensures
            self.attached(a) == self.attached(b),
            self.attached(a).1 == bearer(self.token()),
    {
    }
}

/// Relies on `str::parse` into tonic's `MetadataValue<Ascii>` (which goes
/// through http's `HeaderValue::from_str`): it succeeds exactly when every
/// byte of the text is a tab or at least 32 and not 127.
#[verifier::external_body]
fn ascii_metadata_accepts(s: &str) -> (r: bool)
    ensures
        r <==> forall|i: int| 0 <= i < s@.len() ==> metadata_char(#[trigger] s@[i]),
{
    s.parse::<tonic::metadata::MetadataValue<tonic::metadata::Ascii>>().is_ok()
}

} // verus!
