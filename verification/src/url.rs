//! Endpoint URLs: HTTP(S), FTP(S) and IPFS URLs, validated on creation.

use vstd::prelude::*;
use crate::crypto::is_utf8;
use crate::encoding::{encode_compact_u32, push_bytes_with_len, push_slice};
use crate::errors::UrlError;

verus! {

/// The expected URI scheme for HTTP endpoints.
pub const HTTP_URI_SCHEME: &'static str = "http://";
/// The expected URI scheme for HTTPS endpoints.
pub const HTTPS_URI_SCHEME: &'static str = "https://";
/// The expected URI scheme for FTP endpoints.
pub const FTP_URI_SCHEME: &'static str = "ftp://";
/// The expected URI scheme for FTPS endpoints.
pub const FTPS_URI_SCHEME: &'static str = "ftps://";
/// The expected URI scheme for IPFS endpoints.
pub const IPFS_URI_SCHEME: &'static str = "ipfs://";

// The schemes as ASCII bytes.
const HTTP_SCHEME: [u8; 7] = [0x68, 0x74, 0x74, 0x70, 0x3a, 0x2f, 0x2f];
const HTTPS_SCHEME: [u8; 8] = [0x68, 0x74, 0x74, 0x70, 0x73, 0x3a, 0x2f, 0x2f];
const FTP_SCHEME: [u8; 6] = [0x66, 0x74, 0x70, 0x3a, 0x2f, 0x2f];
const FTPS_SCHEME: [u8; 7] = [0x66, 0x74, 0x70, 0x73, 0x3a, 0x2f, 0x2f];
const IPFS_SCHEME: [u8; 7] = [0x69, 0x70, 0x66, 0x73, 0x3a, 0x2f, 0x2f];

/// The bytes of the `http://` scheme.
pub open spec fn http_scheme() -> Seq<u8> {
    seq![0x68, 0x74, 0x74, 0x70, 0x3a, 0x2f, 0x2f]
}

/// The bytes of the `https://` scheme.
pub open spec fn https_scheme() -> Seq<u8> {
    seq![0x68, 0x74, 0x74, 0x70, 0x73, 0x3a, 0x2f, 0x2f]
}

/// The bytes of the `ftp://` scheme.
pub open spec fn ftp_scheme() -> Seq<u8> {
    seq![0x66, 0x74, 0x70, 0x3a, 0x2f, 0x2f]
}

/// The bytes of the `ftps://` scheme.
pub open spec fn ftps_scheme() -> Seq<u8> {
    seq![0x66, 0x74, 0x70, 0x73, 0x3a, 0x2f, 0x2f]
}

/// The bytes of the `ipfs://` scheme.
pub open spec fn ipfs_scheme() -> Seq<u8> {
    seq![0x69, 0x70, 0x66, 0x73, 0x3a, 0x2f, 0x2f]
}

/// `s` begins with `prefix`.
pub open spec fn has_prefix(s: Seq<u8>, prefix: Seq<u8>) -> bool {
    prefix.len() <= s.len() && s.take(prefix.len() as int) == prefix
}

/// A character allowed in a URL (bytes written as ASCII codes): an ASCII letter or digit, or one of the
/// RFC 3986 reserved and unreserved symbols, or the percent sign.
pub open spec fn is_url_char(c: u8) -> bool {
    ||| 0x30 <= c <= 0x39
    ||| 0x61 <= c <= 0x7a
    ||| 0x41 <= c <= 0x5a
    ||| c == 0x3a || c == 0x2f || c == 0x3f || c == 0x23 || c == 0x5b || c == 0x5d
    ||| c == 0x40 || c == 0x21 || c == 0x24 || c == 0x26 || c == 0x27 || c == 0x28
    ||| c == 0x29 || c == 0x2a || c == 0x2b || c == 0x2c || c == 0x3b || c == 0x3d
    ||| c == 0x2d || c == 0x2e || c == 0x5f || c == 0x7e || c == 0x25
}

/// A character of the base32 alphabet (upper-case letters, the digits 2 to
/// 7, and the padding character `=`).
pub open spec fn is_base_32_char(c: u8) -> bool {
    ||| 0x41 <= c <= 0x5a
    ||| 0x32 <= c <= 0x37
    ||| c == 0x3d
}

/// A character of the base58 alphabet: letters and digits without `0`,
/// `I`, `O` and `l`.
pub open spec fn is_base_58_char(c: u8) -> bool {
    ||| 0x41 <= c <= 0x48
    ||| 0x4a <= c <= 0x4e
    ||| 0x50 <= c <= 0x5a
    ||| 0x61 <= c <= 0x6b
    ||| 0x6d <= c <= 0x7a
    ||| 0x31 <= c <= 0x39
}

/// Every byte of `s` is an allowed URL character.
pub open spec fn is_valid_ascii_url(s: Seq<u8>) -> bool {
    forall|i: int| 0 <= i < s.len() ==> is_url_char(#[trigger] s[i])
}

/// Every byte of `s` is a base32 character.
pub open spec fn is_base_32(s: Seq<u8>) -> bool {
    forall|i: int| 0 <= i < s.len() ==> is_base_32_char(#[trigger] s[i])
}

/// Every byte of `s` is a base58 character.
pub open spec fn is_base_58(s: Seq<u8>) -> bool {
    forall|i: int| 0 <= i < s.len() ==> is_base_58_char(#[trigger] s[i])
}

/// The outcome of validating an HTTP(S) URL: text that is not UTF-8 is
/// badly encoded; then the scheme must be `http://` or `https://`; then
/// every character must be an allowed URL character.
pub open spec fn http_url_check(v: Seq<u8>) -> Result<(), UrlError> {
    if !vstd::utf8::valid_utf8(v) {
        Err(UrlError::InvalidUrlEncoding)
    } else if !(has_prefix(v, http_scheme()) || has_prefix(v, https_scheme())) {
        Err(UrlError::InvalidUrlScheme)
    } else if !is_valid_ascii_url(v) {
        Err(UrlError::InvalidUrlEncoding)
    } else {
        Ok(())
    }
}

/// The outcome of validating an FTP(S) URL, as for HTTP with the schemes
/// `ftp://` and `ftps://`.
pub open spec fn ftp_url_check(v: Seq<u8>) -> Result<(), UrlError> {
    if !vstd::utf8::valid_utf8(v) {
        Err(UrlError::InvalidUrlEncoding)
    } else if !(has_prefix(v, ftp_scheme()) || has_prefix(v, ftps_scheme())) {
        Err(UrlError::InvalidUrlScheme)
    } else if !is_valid_ascii_url(v) {
        Err(UrlError::InvalidUrlEncoding)
    } else {
        Ok(())
    }
}

/// The outcome of validating an IPFS URL: UTF-8 text starting with
/// `ipfs://`, followed by a content identifier that is all base32 or all
/// base58 characters.
pub open spec fn ipfs_url_check(v: Seq<u8>) -> Result<(), UrlError> {
    if !vstd::utf8::valid_utf8(v) {
        Err(UrlError::InvalidUrlEncoding)
    } else if !has_prefix(v, ipfs_scheme()) {
        Err(UrlError::InvalidUrlScheme)
    } else if !(is_base_32(v.skip(7)) || is_base_58(v.skip(7))) {
        Err(UrlError::InvalidUrlEncoding)
    } else {
        Ok(())
    }
}

/// Whether `s` begins with `prefix`.
fn starts_with(s: &[u8], prefix: &[u8]) -> (b: bool)
    ensures
        b == has_prefix(s@, prefix@),
{
    if prefix.len() > s.len() {
        return false;
    }
    let mut i: usize = 0;
    while i < prefix.len()
        invariant
            i <= prefix@.len() <= s@.len(),
            forall|j: int| 0 <= j < i ==> s@[j] == prefix@[j],
        decreases prefix@.len() - i,
    {
        if s[i] != prefix[i] {
            assert(s@.take(prefix@.len() as int)[i as int] != prefix@[i as int]);
            return false;
        }
        i = i + 1;
    }
    assert(s@.take(prefix@.len() as int) =~= prefix@);
    true
}

fn url_char(c: u8) -> (b: bool)
    ensures
        b == is_url_char(c),
{
    (0x30 <= c && c <= 0x39) || (0x61 <= c && c <= 0x7a) || (0x41 <= c && c <= 0x5a) || c == 0x3a
        || c == 0x2f || c == 0x3f || c == 0x23 || c == 0x5b || c == 0x5d || c == 0x40 || c == 0x21
        || c == 0x24 || c == 0x26 || c == 0x27 || c == 0x28 || c == 0x29 || c == 0x2a || c
        == 0x2b || c == 0x2c || c == 0x3b || c == 0x3d || c == 0x2d || c == 0x2e || c == 0x5f || c
        == 0x7e || c == 0x25
}

fn base_32_char(c: u8) -> (b: bool)
    ensures
        b == is_base_32_char(c),
{
    (0x41 <= c && c <= 0x5a) || (0x32 <= c && c <= 0x37) || c == 0x3d
}

fn base_58_char(c: u8) -> (b: bool)
    ensures
        b == is_base_58_char(c),
{
    (0x41 <= c && c <= 0x48) || (0x4a <= c && c <= 0x4e) || (0x50 <= c && c <= 0x5a) || (0x61
        <= c && c <= 0x6b) || (0x6d <= c && c <= 0x7a) || (0x31 <= c && c <= 0x39)
}

/// Whether every byte from position `start` on is an allowed URL character.
pub fn check_valid_ascii_url(s: &[u8]) -> (b: bool)
    ensures
        b == is_valid_ascii_url(s@),
{
    let mut i: usize = 0;
    while i < s.len()
        invariant
            i <= s@.len(),
            forall|j: int| 0 <= j < i ==> is_url_char(#[trigger] s@[j]),
        decreases s@.len() - i,
    {
        if !url_char(s[i]) {
            return false;
        }
        i = i + 1;
    }
    true
}

/// Whether every byte of `s` from position `start` on is a base32 (if
/// `base_32`) or base58 character.
fn check_alphabet_from(s: &[u8], start: usize, base_32: bool) -> (b: bool)
    requires
        start <= s@.len(),
    ensures
        base_32 ==> b == is_base_32(s@.skip(start as int)),
        !base_32 ==> b == is_base_58(s@.skip(start as int)),
{
    let ghost rest = s@.skip(start as int);
    let mut i: usize = start;
    while i < s.len()
        invariant
            start <= i <= s@.len(),
            rest == s@.skip(start as int),
            base_32 ==> forall|j: int| 0 <= j < i - start ==> is_base_32_char(#[trigger] rest[j]),
            !base_32 ==> forall|j: int| 0 <= j < i - start ==> is_base_58_char(#[trigger] rest[j]),
        decreases s@.len() - i,
    {
        let ok = if base_32 {
            base_32_char(s[i])
        } else {
            base_58_char(s[i])
        };
        if !ok {
            assert(rest[i - start] == s@[i as int]);
            return false;
        }
        assert(rest[i - start] == s@[i as int]);
        i = i + 1;
    }
    true
}

/// A web URL starting with either http:// or https:// and containing only
/// ASCII URL-encoded characters.
#[derive(Debug, PartialEq)]
pub struct HttpUrl {
    payload: Vec<u8>,
}

/// An FTP URL starting with ftp:// or ftps:// and containing only ASCII
/// URL-encoded characters.
#[derive(Debug, PartialEq)]
pub struct FtpUrl {
    payload: Vec<u8>,
}

/// An IPFS URL starting with ipfs://. Both CIDs v0 (base58) and v1
/// (base32) are supported.
#[derive(Debug, PartialEq)]
pub struct IpfsUrl {
    payload: Vec<u8>,
}

impl Clone for HttpUrl {
    /// A copy of the URL.
    fn clone(&self) -> (c: Self)
        ensures
            c@ == self@,
    {
        HttpUrl { payload: copy_bytes(self.as_bytes()) }
    }
}

impl HttpUrl {
    /// The bytes of the URL.
    pub closed spec fn view(&self) -> Seq<u8> {
        self.payload@
    }

    /// Every value holds bytes that pass the validation.
    #[verifier::type_invariant]
    spec fn valid(self) -> bool {
        http_url_check(self.payload@) is Ok
    }

    /// Validates `value` as an HTTP(S) URL. It fails if the bytes are not
    /// ASCII-encoded URL text or do not start with an HTTP(S) scheme.
    pub fn try_from(value: &[u8]) -> (r: Result<HttpUrl, UrlError>)
        ensures
            r.is_ok() == (http_url_check(value@) is Ok),
            r matches Ok(url) ==> url@ == value@,
            r matches Err(e) ==> http_url_check(value@) == Err::<(), UrlError>(e),
    {
        if !is_utf8(value) {
            return Err(UrlError::InvalidUrlEncoding);
        }
        if !(starts_with(value, &HTTP_SCHEME) || starts_with(value, &HTTPS_SCHEME)) {
            assert(HTTP_SCHEME@ == http_scheme());
            assert(HTTPS_SCHEME@ == https_scheme());
            return Err(UrlError::InvalidUrlScheme);
        }
        assert(HTTP_SCHEME@ == http_scheme());
        assert(HTTPS_SCHEME@ == https_scheme());
        if !check_valid_ascii_url(value) {
            return Err(UrlError::InvalidUrlEncoding);
        }
        let mut payload = Vec::new();
        push_slice(&mut payload, value);
        assert(payload@ =~= value@);
        Ok(HttpUrl { payload })
    }

    /// The bytes of the URL.
    pub fn as_bytes(&self) -> (b: &[u8])
        ensures
            b@ == self@,
            http_url_check(b@) is Ok,
    {
        proof {
            use_type_invariant(self);
        }
        self.payload.as_slice()
    }
}

impl Clone for FtpUrl {
    /// A copy of the URL.
    fn clone(&self) -> (c: Self)
        ensures
            c@ == self@,
    {
        FtpUrl { payload: copy_bytes(self.as_bytes()) }
    }
}

impl FtpUrl {
    /// The bytes of the URL.
    pub closed spec fn view(&self) -> Seq<u8> {
        self.payload@
    }

    /// Every value holds bytes that pass the validation.
    #[verifier::type_invariant]
    spec fn valid(self) -> bool {
        ftp_url_check(self.payload@) is Ok
    }

    /// Validates `value` as an FTP(S) URL. It fails if the bytes are not
    /// ASCII-encoded URL text or do not start with an FTP(S) scheme.
    pub fn try_from(value: &[u8]) -> (r: Result<FtpUrl, UrlError>)
        ensures
            r.is_ok() == (ftp_url_check(value@) is Ok),
            r matches Ok(url) ==> url@ == value@,
            r matches Err(e) ==> ftp_url_check(value@) == Err::<(), UrlError>(e),
    {
        if !is_utf8(value) {
            return Err(UrlError::InvalidUrlEncoding);
        }
        assert(FTP_SCHEME@ == ftp_scheme());
        assert(FTPS_SCHEME@ == ftps_scheme());
        if !(starts_with(value, &FTP_SCHEME) || starts_with(value, &FTPS_SCHEME)) {
            return Err(UrlError::InvalidUrlScheme);
        }
        if !check_valid_ascii_url(value) {
            return Err(UrlError::InvalidUrlEncoding);
        }
        let mut payload = Vec::new();
        push_slice(&mut payload, value);
        assert(payload@ =~= value@);
        Ok(FtpUrl { payload })
    }

    /// The bytes of the URL.
    pub fn as_bytes(&self) -> (b: &[u8])
        ensures
            b@ == self@,
            ftp_url_check(b@) is Ok,
    {
        proof {
            use_type_invariant(self);
        }
        self.payload.as_slice()
    }
}

impl Clone for IpfsUrl {
    /// A copy of the URL.
    fn clone(&self) -> (c: Self)
        ensures
            c@ == self@,
    {
        IpfsUrl { payload: copy_bytes(self.as_bytes()) }
    }
}

impl IpfsUrl {
    /// The bytes of the URL.
    pub closed spec fn view(&self) -> Seq<u8> {
        self.payload@
    }

    /// Every value holds bytes that pass the validation.
    #[verifier::type_invariant]
    spec fn valid(self) -> bool {
        ipfs_url_check(self.payload@) is Ok
    }

    /// Validates `value` as an IPFS URL. It fails if the bytes are not
    /// UTF-8, do not start with the IPFS scheme, or if what follows the
    /// scheme is neither all base32 nor all base58.
    pub fn try_from(value: &[u8]) -> (r: Result<IpfsUrl, UrlError>)
        ensures
            r.is_ok() == (ipfs_url_check(value@) is Ok),
            r matches Ok(url) ==> url@ == value@,
            r matches Err(e) ==> ipfs_url_check(value@) == Err::<(), UrlError>(e),
    {
        if !is_utf8(value) {
            return Err(UrlError::InvalidUrlEncoding);
        }
        assert(IPFS_SCHEME@ == ipfs_scheme());
        if !starts_with(value, &IPFS_SCHEME) {
            return Err(UrlError::InvalidUrlScheme);
        }
        if !(check_alphabet_from(value, 7, true) || check_alphabet_from(value, 7, false)) {
            return Err(UrlError::InvalidUrlEncoding);
        }
        let mut payload = Vec::new();
        push_slice(&mut payload, value);
        assert(payload@ =~= value@);
        Ok(IpfsUrl { payload })
    }

    /// The bytes of the URL.
    pub fn as_bytes(&self) -> (b: &[u8])
        ensures
            b@ == self@,
            ipfs_url_check(b@) is Ok,
    {
        proof {
            use_type_invariant(self);
        }
        self.payload.as_slice()
    }
}

/// Supported URLs.
#[derive(Clone, Debug, PartialEq)]
pub enum Url {
    /// See [HttpUrl].
    Http(HttpUrl),
    /// See [FtpUrl].
    Ftp(FtpUrl),
    /// See [IpfsUrl].
    Ipfs(IpfsUrl),
}

/// The abstract content of a URL: its kind and its bytes.
pub ghost enum UrlView {
    Http(Seq<u8>),
    Ftp(Seq<u8>),
    Ipfs(Seq<u8>),
}

/// The bytes of a URL.
pub open spec fn url_bytes(url: UrlView) -> Seq<u8> {
    match url {
        UrlView::Http(b) => b,
        UrlView::Ftp(b) => b,
        UrlView::Ipfs(b) => b,
    }
}

/// The SCALE encoding of a URL: the variant index, then the URL bytes with
/// their compact-encoded length.
pub open spec fn encode_url(url: UrlView) -> Seq<u8> {
    match url {
        UrlView::Http(b) => seq![0u8] + encode_compact_u32(b.len() as u32) + b,
        UrlView::Ftp(b) => seq![1u8] + encode_compact_u32(b.len() as u32) + b,
        UrlView::Ipfs(b) => seq![2u8] + encode_compact_u32(b.len() as u32) + b,
    }
}

/// The abstract content of an optional URL.
pub open spec fn optional_url_view(url: Option<Url>) -> Option<UrlView> {
    match url {
        Some(u) => Some(u@),
        None => None,
    }
}

fn copy_bytes(b: &[u8]) -> (v: Vec<u8>)
    ensures
        v@ == b@,
{
    let mut v = Vec::new();
    push_slice(&mut v, b);
    assert(v@ =~= b@);
    v
}

impl Url {
    /// The abstract content of the URL.
    pub open spec fn view(&self) -> UrlView {
        match self {
            Url::Http(u) => UrlView::Http(u@),
            Url::Ftp(u) => UrlView::Ftp(u@),
            Url::Ipfs(u) => UrlView::Ipfs(u@),
        }
    }

    /// A copy of the URL.
    pub fn duplicate(&self) -> (u: Url)
        ensures
            u@ == self@,
    {
        match self {
            Url::Http(u) => Url::Http(HttpUrl { payload: copy_bytes(u.as_bytes()) }),
            Url::Ftp(u) => Url::Ftp(FtpUrl { payload: copy_bytes(u.as_bytes()) }),
            Url::Ipfs(u) => Url::Ipfs(IpfsUrl { payload: copy_bytes(u.as_bytes()) }),
        }
    }

    /// Appends the SCALE encoding of the URL.
    pub fn encode_to(&self, out: &mut Vec<u8>)
        requires
            url_bytes(self@).len() <= u32::MAX,
        ensures
            final(out)@ == old(out)@ + encode_url(self@),
    {
        match self {
            Url::Http(u) => {
                out.push(0u8);
                push_bytes_with_len(out, u.as_bytes());
            },
            Url::Ftp(u) => {
                out.push(1u8);
                push_bytes_with_len(out, u.as_bytes());
            },
            Url::Ipfs(u) => {
                out.push(2u8);
                push_bytes_with_len(out, u.as_bytes());
            },
        }
        assert(out@ =~= old(out)@ + encode_url(self@));
    }
}

impl From<HttpUrl> for Url {
    fn from(url: HttpUrl) -> (u: Self)
        ensures
            u == Url::Http(url),
    {
        Url::Http(url)
    }
}

impl From<FtpUrl> for Url {
    fn from(url: FtpUrl) -> (u: Self)
        ensures
            u == Url::Ftp(url),
    {
        Url::Ftp(url)
    }
}

impl From<IpfsUrl> for Url {
    fn from(url: IpfsUrl) -> (u: Self)
        ensures
            u == Url::Ipfs(url),
    {
        Url::Ipfs(url)
    }
}

impl vstd::std_specs::convert::FromSpecImpl<HttpUrl> for Url {
    open spec fn obeys_from_spec() -> bool {
        true
    }

    open spec fn from_spec(v: HttpUrl) -> Self {
        Url::Http(v)
    }
}

impl vstd::std_specs::convert::FromSpecImpl<FtpUrl> for Url {
    open spec fn obeys_from_spec() -> bool {
        true
    }

    open spec fn from_spec(v: FtpUrl) -> Self {
        Url::Ftp(v)
    }
}

impl vstd::std_specs::convert::FromSpecImpl<IpfsUrl> for Url {
    open spec fn obeys_from_spec() -> bool {
        true
    }

    open spec fn from_spec(v: IpfsUrl) -> Self {
        Url::Ipfs(v)
    }
}

} // verus!
