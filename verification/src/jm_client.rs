use vstd::prelude::*;
use vstd::slice::slice_subrange;
use vstd::string::StrSliceExecFns;
use vstd::utf8::decode_utf8;
use vstd::utf8::encode_utf8;
use vstd::utf8::encode_utf8_decode_utf8;
use vstd::utf8::encode_utf8_valid_utf8;
use vstd::utf8::is_ascii_chars;
use vstd::utf8::valid_utf8;

use aes::cipher::generic_array::GenericArray;
use aes::cipher::BlockDecrypt;
use aes::cipher::BlockEncrypt;
use aes::cipher::KeyInit;
use base64::Engine;

use crate::download_manager::IMAGE_DOMAIN;
use crate::errors::ClientError;
use crate::errors::CryptoError;
use crate::responses::GetUserProfileRespData;
use crate::responses::JmResp;
use crate::types::spec_favorite_sort_str;
use crate::types::spec_search_sort_str;
use crate::types::FavoriteSort;
use crate::types::SearchSort;
use crate::utils;

verus! {

pub const APP_TOKEN_SECRET: &'static str = "18comicAPP";

pub const APP_TOKEN_SECRET_2: &'static str = "18comicAPPContent";

pub const APP_DATA_SECRET: &'static str = "185Hcomic3PAPP7R";

pub const APP_VERSION: &'static str = "1.7.5";

pub const API_DOMAIN: &'static str = "www.cdnblackmyth.club";

/// The URL path of each endpoint; fetching the user profile shares the
/// login path.
pub open spec fn spec_api_path_str(path: ApiPath) -> Seq<char> {
    match path {
        ApiPath::Login => "/login"@,
        ApiPath::GetUserProfile => "/login"@,
        ApiPath::Search => "/search"@,
        ApiPath::GetComic => "/album"@,
        ApiPath::GetChapter => "/chapter"@,
        ApiPath::GetScrambleId => "/chapter_view_template"@,
        ApiPath::GetFavoriteFolder => "/favorite"@,
    }
}

/// The secret that signs requests to each endpoint: the descrambling
/// endpoint has its own, every other endpoint shares the ordinary one.
pub open spec fn spec_signing_secret(path: ApiPath) -> Seq<char> {
    if path is GetScrambleId {
        APP_TOKEN_SECRET_2@
    } else {
        APP_TOKEN_SECRET@
    }
}

/// The closed set of remote endpoints the client talks to.
#[derive(Debug, Clone, Copy, PartialEq, Eq, Structural)]
pub enum ApiPath {
    Login,
    GetUserProfile,
    Search,
    GetComic,
    GetChapter,
    GetScrambleId,
    GetFavoriteFolder,
}

impl ApiPath {
    /// The URL path of the endpoint. Fetching the user profile shares the
    /// login path: the remote host returns the profile when the request
    /// carries a valid session instead of credentials.
    pub fn as_str(&self) -> (r: &'static str)
        ensures
            *self is Login ==> r@ == "/login"@,
            *self is GetUserProfile ==> r@ == "/login"@,
            *self is Search ==> r@ == "/search"@,
            *self is GetComic ==> r@ == "/album"@,
            *self is GetChapter ==> r@ == "/chapter"@,
            *self is GetScrambleId ==> r@ == "/chapter_view_template"@,
            *self is GetFavoriteFolder ==> r@ == "/favorite"@,
            r@ == spec_api_path_str(*self),
    {
        match self {
            ApiPath::Login | ApiPath::GetUserProfile => "/login",
            ApiPath::Search => "/search",
            ApiPath::GetComic => "/album",
            ApiPath::GetChapter => "/chapter",
            ApiPath::GetScrambleId => "/chapter_view_template",
            ApiPath::GetFavoriteFolder => "/favorite",
        }
    }

    /// The endpoint that yields the descrambling context is signed with its
    /// own secret; every other endpoint uses the ordinary one.
    pub fn signing_secret(&self) -> (r: &'static str)
        ensures
            *self is GetScrambleId ==> r@ == APP_TOKEN_SECRET_2@,
            !(*self is GetScrambleId) ==> r@ == APP_TOKEN_SECRET@,
            r@ == spec_signing_secret(*self),
    {
        match self {
            ApiPath::GetScrambleId => APP_TOKEN_SECRET_2,
            _ => APP_TOKEN_SECRET,
        }
    }
}

/// The key derived from a request timestamp and a secret: the hex digest of
/// the timestamp written in decimal followed by the secret.
pub open spec fn spec_key(ts: nat, secret: Seq<char>) -> Seq<char> {
    utils::md5_hex_of(utils::spec_dec_chars(ts) + secret)
}

/// A usable symmetric key: 32 ASCII characters, so its UTF-8 bytes form a
/// 32-byte key.
pub open spec fn is_aes_key(key: Seq<char>) -> bool {
    key.len() == 32 && is_ascii_chars(key)
}

proof fn lemma_hex_digest_is_aes_key(s: Seq<char>)
    requires
        s.len() == 32,
        forall|i: int| 0 <= i < s.len() ==> utils::is_lower_hex_digit(#[trigger] s[i]),
    ensures
        is_aes_key(s),
{
    assert forall|i: int| 0 <= i < s.len() implies '\0' <= #[trigger] s[i] <= '\u{7f}' by {
        assert(utils::is_lower_hex_digit(s[i]));
    }
}

/// Signs a request: the token is the hex digest of the timestamp written in
/// decimal followed by the endpoint's secret.
pub fn sign(ts: u64, secret: &str) -> (r: String)
    ensures
        r@ == spec_key(ts as nat, secret@),
        is_aes_key(r@),
{
    let mut chars = utils::u64_to_dec_chars(ts);
    let mut secret_chars = utils::chars_of(secret);
    chars.append(&mut secret_chars);
    let joined = utils::string_from_chars(&chars);
    let digest = utils::md5_hex(joined.as_str());
    proof {
        lemma_hex_digest_is_aes_key(digest@);
    }
    digest
}

/// The `token-param` header: the timestamp in decimal, a comma, and the
/// client version.
pub fn tokenparam(ts: u64) -> (r: String)
    ensures
        r@ == utils::spec_dec_chars(ts as nat) + ","@ + APP_VERSION@,
{
    let mut s = utils::u64_to_dec_string(ts);
    s.append(",");
    s.append(APP_VERSION);
    s
}

/// What the `base64` crate's standard-alphabet decode returns: the decoded
/// bytes where the input is valid Base64, nothing otherwise.
pub uninterp spec fn b64_decode_of(s: Seq<char>) -> Option<Seq<u8>>;

/// What the `base64` crate's standard-alphabet encode returns for a byte
/// sequence.
pub uninterp spec fn b64_encode_of(b: Seq<u8>) -> Seq<char>;

/// Relies on base64's STANDARD engine decode: it succeeds exactly on valid
/// Base64 text and its result depends on the input alone.
#[verifier::external_body]
fn base64_decode(data: &str) -> (r: Option<Vec<u8>>)
    ensures
        r is Some <==> b64_decode_of(data@) is Some,
        r is Some ==> r->0@ == b64_decode_of(data@)->0,
{
    base64::engine::general_purpose::STANDARD.decode(data).ok()
}

/// Relies on base64's STANDARD engine encode: its result depends on the
/// input alone, and decoding it with the same engine gives the input back.
#[verifier::external_body]
fn base64_encode(data: &[u8]) -> (r: String)
    ensures
        r@ == b64_encode_of(data@),
        b64_decode_of(r@) == Some(data@),
{
    base64::engine::general_purpose::STANDARD.encode(data)
}

/// What one 16-byte block decrypts to under AES-256 with the key made of the
/// 32 characters' bytes.
pub uninterp spec fn aes256_decrypt_block_of(key: Seq<char>, block: Seq<u8>) -> Seq<u8>;

/// What one 16-byte block encrypts to under AES-256 with the key made of the
/// 32 characters' bytes.
pub uninterp spec fn aes256_encrypt_block_of(key: Seq<char>, block: Seq<u8>) -> Seq<u8>;

/// Relies on aes::Aes256 and cipher::BlockDecrypt::decrypt_block: one block
/// in, one block out, a function of key and block alone.
#[verifier::external_body]
fn aes256_decrypt_block(key: &str, block: &[u8]) -> (r: Vec<u8>)
    requires
        is_aes_key(key@),
        block@.len() == 16,
    ensures
        r@ == aes256_decrypt_block_of(key@, block@),
        r@.len() == 16,
{
    let cipher = aes::Aes256::new(GenericArray::from_slice(key.as_bytes()));
    let mut ga = GenericArray::clone_from_slice(block);
    cipher.decrypt_block(&mut ga);
    ga.to_vec()
}

/// Relies on aes::Aes256 and cipher::BlockEncrypt::encrypt_block: one block
/// in, one block out, a function of key and block alone; decrypting the
/// result under the same key gives the block back (the cipher is a
/// permutation and BlockDecrypt inverts it).
#[verifier::external_body]
fn aes256_encrypt_block(key: &str, block: &[u8]) -> (r: Vec<u8>)
    requires
        is_aes_key(key@),
        block@.len() == 16,
    ensures
        r@ == aes256_encrypt_block_of(key@, block@),
        r@.len() == 16,
        aes256_decrypt_block_of(key@, r@) == block@,
{
    let cipher = aes::Aes256::new(GenericArray::from_slice(key.as_bytes()));
    let mut ga = GenericArray::clone_from_slice(block);
    cipher.encrypt_block(&mut ga);
    ga.to_vec()
}

/// Block-by-block ECB decryption of a whole-block byte sequence.
pub open spec fn ecb_decrypt(key: Seq<char>, c: Seq<u8>) -> Seq<u8>
    decreases c.len(),
{
    if c.len() < 16 {
        Seq::empty()
    } else {
        aes256_decrypt_block_of(key, c.take(16)) + ecb_decrypt(key, c.skip(16))
    }
}

/// Block-by-block ECB encryption of a whole-block byte sequence.
pub open spec fn ecb_encrypt(key: Seq<char>, p: Seq<u8>) -> Seq<u8>
    decreases p.len(),
{
    if p.len() < 16 {
        Seq::empty()
    } else {
        aes256_encrypt_block_of(key, p.take(16)) + ecb_encrypt(key, p.skip(16))
    }
}

proof fn lemma_ecb_decrypt_snoc(key: Seq<char>, s: Seq<u8>, b: Seq<u8>)
    requires
        s.len() % 16 == 0,
        b.len() == 16,
    ensures
        ecb_decrypt(key, s + b) == ecb_decrypt(key, s) + aes256_decrypt_block_of(key, b),
    decreases s.len(),
{
    if s.len() == 0 {
        assert(s + b =~= b);
        assert(b.take(16) =~= b);
        assert(b.skip(16) =~= Seq::<u8>::empty());
        assert(ecb_decrypt(key, b.skip(16)) == Seq::<u8>::empty());
        assert(ecb_decrypt(key, b) =~= aes256_decrypt_block_of(key, b));
        assert(ecb_decrypt(key, s) + aes256_decrypt_block_of(key, b) =~= aes256_decrypt_block_of(
            key,
            b,
        ));
    } else {
        assert(s.len() >= 16);
        assert((s + b).take(16) =~= s.take(16));
        assert((s + b).skip(16) =~= s.skip(16) + b);
        assert(s.skip(16).len() % 16 == 0);
        lemma_ecb_decrypt_snoc(key, s.skip(16), b);
        assert(ecb_decrypt(key, s + b) =~= ecb_decrypt(key, s) + aes256_decrypt_block_of(key, b));
    }
}

proof fn lemma_ecb_encrypt_snoc(key: Seq<char>, s: Seq<u8>, b: Seq<u8>)
    requires
        s.len() % 16 == 0,
        b.len() == 16,
    ensures
        ecb_encrypt(key, s + b) == ecb_encrypt(key, s) + aes256_encrypt_block_of(key, b),
    decreases s.len(),
{
    if s.len() == 0 {
        assert(s + b =~= b);
        assert(b.take(16) =~= b);
        assert(b.skip(16) =~= Seq::<u8>::empty());
        assert(ecb_encrypt(key, b.skip(16)) == Seq::<u8>::empty());
        assert(ecb_encrypt(key, b) =~= aes256_encrypt_block_of(key, b));
        assert(ecb_encrypt(key, s) + aes256_encrypt_block_of(key, b) =~= aes256_encrypt_block_of(
            key,
            b,
        ));
    } else {
        assert(s.len() >= 16);
        assert((s + b).take(16) =~= s.take(16));
        assert((s + b).skip(16) =~= s.skip(16) + b);
        assert(s.skip(16).len() % 16 == 0);
        lemma_ecb_encrypt_snoc(key, s.skip(16), b);
        assert(ecb_encrypt(key, s + b) =~= ecb_encrypt(key, s) + aes256_encrypt_block_of(key, b));
    }
}

/// PKCS#7 padding to a 16-byte block size: between 1 and 16 copies of the
/// count of padding bytes are appended.
pub open spec fn pkcs7_pad16(b: Seq<u8>) -> Seq<u8> {
    let k = 16 - (b.len() % 16) as int;
    b + Seq::new(k as nat, |i: int| k as u8)
}

/// Removes PKCS#7 padding the way the remote protocol expects: the last byte
/// alone names the padding length; a length exceeding the data is rejected.
pub open spec fn pkcs7_unpad(b: Seq<u8>) -> Option<Seq<u8>> {
    if b.len() == 0 {
        None
    } else {
        let k = b.last() as int;
        if k > b.len() {
            None
        } else {
            Some(b.take(b.len() - k))
        }
    }
}

/// Unpadding inverts padding, and the padded length is the next multiple of
/// the block size.
pub proof fn lemma_pkcs7_round_trip(b: Seq<u8>)
    ensures
        pkcs7_unpad(pkcs7_pad16(b)) == Some(b),
        pkcs7_pad16(b).len() % 16 == 0,
        pkcs7_pad16(b).len() == b.len() + 16 - (b.len() % 16),
        pkcs7_pad16(b).len() > 0,
{
    let k = 16 - (b.len() % 16) as int;
    let p = pkcs7_pad16(b);
    assert(1 <= k <= 16);
    assert(p.len() == b.len() + k);
    assert(p.last() == k as u8);
    assert(p.last() as int == k);
    assert(p.take(p.len() - k) =~= b);
    assert(p.len() % 16 == 0) by (nonlinear_arith)
        requires
            p.len() == b.len() + 16 - (b.len() % 16) as int,
    ;
}

/// What decrypting an envelope's `data` field yields under a given key: the
/// text is Base64-decoded, each block is deciphered, the PKCS#7 padding is
/// stripped by the last byte's count, and the bytes are read as UTF-8. Each
/// failure names its stage.
pub open spec fn spec_decrypt_with_key(key: Seq<char>, data: Seq<char>) -> Result<
    Seq<char>,
    CryptoError,
> {
    if b64_decode_of(data) is None {
        Err(CryptoError::DecodeError)
    } else {
        let c = b64_decode_of(data)->0;
        if c.len() == 0 || c.len() % 16 != 0 {
            Err(CryptoError::DecryptError)
        } else {
            let p = ecb_decrypt(key, c);
            if pkcs7_unpad(p) is None {
                Err(CryptoError::DecryptError)
            } else {
                let u = pkcs7_unpad(p)->0;
                if !valid_utf8(u) {
                    Err(CryptoError::EncodingError)
                } else {
                    Ok(decode_utf8(u))
                }
            }
        }
    }
}

/// Decrypts an envelope's `data` field with an explicit key.
pub fn decrypt_with_key(key: &str, data: &str) -> (r: Result<String, CryptoError>)
    requires
        is_aes_key(key@),
    ensures
        r is Ok <==> spec_decrypt_with_key(key@, data@) is Ok,
        r is Ok ==> r->Ok_0@ == spec_decrypt_with_key(key@, data@)->Ok_0,
        r is Err ==> r->Err_0 == spec_decrypt_with_key(key@, data@)->Err_0,
{
    let cipher_bytes = match base64_decode(data) {
        Some(b) => b,
        None => {
            return Err(CryptoError::DecodeError);
        },
    };
    let n = cipher_bytes.len();
    if n == 0 || n % 16 != 0 {
        return Err(CryptoError::DecryptError);
    }
    let mut plain: Vec<u8> = Vec::new();
    let mut off: usize = 0;
    while off < n
        invariant
            is_aes_key(key@),
            n == cipher_bytes@.len(),
            n % 16 == 0,
            off % 16 == 0,
            off <= n,
            plain@ == ecb_decrypt(key@, cipher_bytes@.take(off as int)),
            plain@.len() == off,
        decreases n - off,
    {
        proof {
            assert(off + 16 <= n) by (nonlinear_arith)
                requires
                    off % 16 == 0,
                    n % 16 == 0,
                    off < n,
            ;
        }
        let chunk = slice_subrange(cipher_bytes.as_slice(), off, off + 16);
        let mut dec = aes256_decrypt_block(key, chunk);
        let ghost pre = plain@;
        plain.append(&mut dec);
        proof {
            lemma_ecb_decrypt_snoc(
                key@,
                cipher_bytes@.take(off as int),
                cipher_bytes@.subrange(off as int, off as int + 16),
            );
            assert(cipher_bytes@.take(off as int + 16) =~= cipher_bytes@.take(off as int)
                + cipher_bytes@.subrange(off as int, off as int + 16));
        }
        off = off + 16;
    }
    assert(cipher_bytes@.take(n as int) =~= cipher_bytes@);
    let pad_len = plain[plain.len() - 1] as usize;
    if pad_len > plain.len() {
        return Err(CryptoError::DecryptError);
    }
    let keep = plain.len() - pad_len;
    plain.truncate(keep);
    match utf8_to_string(plain) {
        Some(s) => Ok(s),
        None => Err(CryptoError::EncodingError),
    }
}

/// Relies on String::from_utf8: it succeeds exactly on valid UTF-8 and
/// yields the decoded characters.
#[verifier::external_body]
fn utf8_to_string(bytes: Vec<u8>) -> (r: Option<String>)
    ensures
        r is Some <==> valid_utf8(bytes@),
        r is Some ==> r->0@ == decode_utf8(bytes@),
{
    String::from_utf8(bytes).ok()
}

/// Encrypts text with an explicit key, exactly inverting
/// `decrypt_with_key`: the UTF-8 bytes are padded, enciphered block by
/// block and Base64-encoded, and decrypting the result under the same key
/// gives the text back.
pub fn encrypt_with_key(key: &str, plaintext: &str) -> (r: String)
    requires
        is_aes_key(key@),
    ensures
        r@ == b64_encode_of(ecb_encrypt(key@, pkcs7_pad16(encode_utf8(plaintext@)))),
        spec_decrypt_with_key(key@, r@) == Ok::<Seq<char>, CryptoError>(plaintext@),
{
    broadcast use encode_utf8_valid_utf8, encode_utf8_decode_utf8;

    let mut bytes = plaintext.as_bytes_vec();
    let ghost orig = bytes@;
    let rem = bytes.len() % 16;
    let pad_count = 16 - rem;
    let pad_byte = pad_count as u8;
    let mut i: usize = 0;
    while i < pad_count
        invariant
            pad_count == 16 - (orig.len() % 16),
            pad_byte == pad_count as u8,
            i <= pad_count,
            bytes@ == orig + Seq::new(i as nat, |j: int| pad_byte),
        decreases pad_count - i,
    {
        bytes.push(pad_byte);
        proof {
            assert(bytes@ =~= orig + Seq::new((i + 1) as nat, |j: int| pad_byte));
        }
        i += 1;
    }
    proof {
        assert(bytes@ =~= pkcs7_pad16(orig));
        lemma_pkcs7_round_trip(orig);
    }
    let n = bytes.len();
    let mut cipher: Vec<u8> = Vec::new();
    let mut off: usize = 0;
    while off < n
        invariant
            is_aes_key(key@),
            n == bytes@.len(),
            n % 16 == 0,
            off % 16 == 0,
            off <= n,
            cipher@ == ecb_encrypt(key@, bytes@.take(off as int)),
            ecb_decrypt(key@, cipher@) == bytes@.take(off as int),
            cipher@.len() == off,
        decreases n - off,
    {
        proof {
            assert(off + 16 <= n) by (nonlinear_arith)
                requires
                    off % 16 == 0,
                    n % 16 == 0,
                    off < n,
            ;
        }
        let chunk = slice_subrange(bytes.as_slice(), off, off + 16);
        let mut enc = aes256_encrypt_block(key, chunk);
        let ghost pre = cipher@;
        let ghost enc_view = enc@;
        cipher.append(&mut enc);
        proof {
            lemma_ecb_encrypt_snoc(
                key@,
                bytes@.take(off as int),
                bytes@.subrange(off as int, off as int + 16),
            );
            lemma_ecb_decrypt_snoc(key@, pre, enc_view);
            assert(bytes@.take(off as int + 16) =~= bytes@.take(off as int) + bytes@.subrange(
                off as int,
                off as int + 16,
            ));
        }
        off = off + 16;
    }
    assert(bytes@.take(n as int) =~= bytes@);
    let encoded = base64_encode(cipher.as_slice());
    proof {
        assert(valid_utf8(orig));
        assert(decode_utf8(orig) == plaintext@);
        assert(spec_decrypt_with_key(key@, encoded@) == Ok::<Seq<char>, CryptoError>(plaintext@));
    }
    encoded
}

/// Decrypts an envelope's `data` field: the key is derived from the request
/// timestamp and the data secret, the text is Base64-decoded, deciphered,
/// unpadded by the last byte's count and read as UTF-8.
pub fn decrypt_data(ts: u64, data: &str) -> (r: Result<String, CryptoError>)
    ensures
        r is Ok <==> spec_decrypt_with_key(spec_key(ts as nat, APP_DATA_SECRET@), data@) is Ok,
        r is Ok ==> r->Ok_0@ == spec_decrypt_with_key(
            spec_key(ts as nat, APP_DATA_SECRET@),
            data@,
        )->Ok_0,
        r is Err ==> r->Err_0 == spec_decrypt_with_key(
            spec_key(ts as nat, APP_DATA_SECRET@),
            data@,
        )->Err_0,
{
    let key = sign(ts, APP_DATA_SECRET);
    decrypt_with_key(key.as_str(), data)
}

/// Encrypts text the way the remote host does for a given request
/// timestamp; `decrypt_data` with the same timestamp gives the text back.
pub fn encrypt_data(ts: u64, plaintext: &str) -> (r: String)
    ensures
        spec_decrypt_with_key(spec_key(ts as nat, APP_DATA_SECRET@), r@) == Ok::<
            Seq<char>,
            CryptoError,
        >(plaintext@),
{
    let key = sign(ts, APP_DATA_SECRET);
    encrypt_with_key(key.as_str(), plaintext)
}

/// The first index where the pattern occurs in the text.
pub open spec fn spec_find_sub(s: Seq<char>, pat: Seq<char>) -> Option<int>
    decreases s.len(),
{
    if pat.len() == 0 {
        Some(0)
    } else if s.len() < pat.len() {
        None
    } else if s.subrange(0, pat.len() as int) == pat {
        Some(0)
    } else {
        match spec_find_sub(s.drop_first(), pat) {
            Some(i) => Some(i + 1),
            None => None,
        }
    }
}

proof fn lemma_find_sub_at(s: Seq<char>, pat: Seq<char>, i: int)
    requires
        pat.len() > 0,
        0 <= i,
        i + pat.len() <= s.len(),
        s.subrange(i, i + pat.len()) == pat,
        forall|j: int| 0 <= j < i ==> #[trigger] s.subrange(j, j + pat.len()) != pat,
    ensures
        spec_find_sub(s, pat) == Some(i),
    decreases i,
{
    if i == 0 {
        assert(s.subrange(0int, 0int + pat.len()) == pat);
        assert(s.subrange(0, pat.len() as int) == pat);
    } else {
        assert(s.subrange(0int, 0int + pat.len()) != pat);
        assert(s.subrange(0, pat.len() as int) != pat);
        let t = s.drop_first();
        assert(t.subrange(i - 1, i - 1 + pat.len()) =~= s.subrange(i, i + pat.len()));
        assert forall|j: int| 0 <= j < i - 1 implies #[trigger] t.subrange(j, j + pat.len())
            != pat by {
            assert(t.subrange(j, j + pat.len()) =~= s.subrange(j + 1, (j + 1) + pat.len()));
            assert(s.subrange(j + 1, (j + 1) + pat.len()) != pat);
        }
        lemma_find_sub_at(t, pat, i - 1);
    }
}

proof fn lemma_find_sub_none(s: Seq<char>, pat: Seq<char>)
    requires
        pat.len() > 0,
        forall|j: int|
            0 <= j <= s.len() - pat.len() ==> #[trigger] s.subrange(j, j + pat.len()) != pat,
    ensures
        spec_find_sub(s, pat) is None,
    decreases s.len(),
{
    if s.len() < pat.len() {
    } else {
        assert(s.subrange(0int, 0int + pat.len()) != pat);
        assert(s.subrange(0, pat.len() as int) != pat);
        let t = s.drop_first();
        assert forall|j: int|
            0 <= j <= t.len() - pat.len() implies #[trigger] t.subrange(j, j + pat.len())
            != pat by {
            assert(t.subrange(j, j + pat.len()) =~= s.subrange(j + 1, (j + 1) + pat.len()));
            assert(s.subrange(j + 1, (j + 1) + pat.len()) != pat);
        }
        lemma_find_sub_none(t, pat);
    }
}

/// Whether the pattern occurs in the text at the given index.
fn matches_at(hay: &Vec<char>, pat: &Vec<char>, i: usize) -> (r: bool)
    requires
        i + pat@.len() <= hay@.len(),
    ensures
        r == (hay@.subrange(i as int, i + pat@.len()) == pat@),
{
    let m = pat.len();
    let nh = hay.len();
    let mut k: usize = 0;
    while k < m
        invariant
            m == pat@.len(),
            nh == hay@.len(),
            i + m <= nh,
            k <= m,
            forall|t: int| 0 <= t < k ==> hay@[i + t] == pat@[t],
        decreases m - k,
    {
        if hay[i + k] != pat[k] {
            proof {
                assert(hay@.subrange(i as int, i + pat@.len())[k as int] == hay@[i + k]);
                if hay@.subrange(i as int, i + pat@.len()) == pat@ {
                    assert(hay@.subrange(i as int, i + pat@.len())[k as int] == pat@[k as int]);
                }
            }
            return false;
        }
        k += 1;
    }
    proof {
        assert(hay@.subrange(i as int, i + pat@.len()) =~= pat@);
    }
    true
}

/// Finds the first occurrence of a pattern in a text.
fn find_substring(hay: &Vec<char>, pat: &Vec<char>) -> (r: Option<usize>)
    requires
        pat@.len() > 0,
    ensures
        r is Some ==> Some(r->0 as int) == spec_find_sub(hay@, pat@) && r->0 + pat@.len()
            <= hay@.len(),
        r is None ==> spec_find_sub(hay@, pat@) is None,
{
    let n = hay.len();
    let m = pat.len();
    if m > n {
        proof {
            lemma_find_sub_none(hay@, pat@);
        }
        return None;
    }
    let mut i: usize = 0;
    while i <= n - m
        invariant
            0 < m <= n,
            n == hay@.len(),
            m == pat@.len(),
            i <= n - m + 1,
            forall|j: int| 0 <= j < i ==> #[trigger] hay@.subrange(j, j + pat@.len()) != pat@,
        decreases n - m + 1 - i,
    {
        if matches_at(hay, pat, i) {
            proof {
                lemma_find_sub_at(hay@, pat@, i as int);
            }
            return Some(i);
        }
        i += 1;
    }
    proof {
        lemma_find_sub_none(hay@, pat@);
    }
    None
}

/// The first index of a semicolon in the text.
pub open spec fn spec_find_semi(s: Seq<char>) -> Option<int>
    decreases s.len(),
{
    if s.len() == 0 {
        None
    } else if s[0] == ';' {
        Some(0)
    } else {
        match spec_find_semi(s.drop_first()) {
            Some(i) => Some(i + 1),
            None => None,
        }
    }
}

proof fn lemma_find_semi_scan(s: Seq<char>, i: int)
    requires
        0 <= i <= s.len(),
        forall|j: int| 0 <= j < i ==> s[j] != ';',
        i < s.len() ==> s[i] == ';',
    ensures
        i < s.len() ==> spec_find_semi(s) == Some(i),
        i == s.len() ==> spec_find_semi(s) is None,
    decreases i + 1,
{
    if i == 0 {
        if s.len() > 0 && s[0] != ';' {
            assert(i == 0 && i == s.len() ==> s.len() == 0);
        }
    } else {
        assert(s[0] != ';');
        let t = s.drop_first();
        assert(forall|j: int| 0 <= j < i - 1 ==> #[trigger] t[j] == s[j + 1] && t[j] != ';');
        lemma_find_semi_scan(t, i - 1);
    }
}

/// The scramble id read from the descrambling endpoint's page: the number
/// between the assignment marker and the following semicolon; a page
/// without a readable number yields the historical fallback value.
pub open spec fn spec_scramble_id(body: Seq<char>) -> int {
    let pat = "var scramble_id = "@;
    match spec_find_sub(body, pat) {
        None => 220980,
        Some(i) => {
            let after = body.skip(i + pat.len());
            let upto = match spec_find_semi(after) {
                Some(j) => after.take(j),
                None => after,
            };
            match utils::spec_parse_i64(upto) {
                Some(v) => v as int,
                None => 220980,
            }
        },
    }
}

/// Reads the scramble id out of the descrambling endpoint's page, falling
/// back to the historical value when the page holds no readable number.
pub fn parse_scramble_id(body: &str) -> (r: i64)
    ensures
        r == spec_scramble_id(body@),
{
    let chars = utils::chars_of(body);
    let n = chars.len();
    let pat = utils::chars_of("var scramble_id = ");
    proof {
        reveal_strlit("var scramble_id = ");
    }
    let start = match find_substring(&chars, &pat) {
        Some(i) => i + pat.len(),
        None => {
            return 220980;
        },
    };
    let ghost after = body@.skip(start as int);
    let mut upto: Vec<char> = Vec::new();
    let mut k: usize = start;
    while k < n
        invariant
            n == chars@.len(),
            start <= k <= chars@.len(),
            after == chars@.skip(start as int),
            upto@ == chars@.subrange(start as int, k as int),
            forall|j: int| 0 <= j < k - start ==> after[j] != ';',
        ensures
            n == chars@.len(),
            start <= k <= chars@.len(),
            upto@ == chars@.subrange(start as int, k as int),
            forall|j: int| 0 <= j < k - start ==> after[j] != ';',
            (k as int) < chars@.len() ==> after[k - start] == ';',
        decreases chars@.len() - k,
    {
        let c = chars[k];
        if c == ';' {
            proof {
                assert(after[k - start] == ';');
            }
            break;
        }
        upto.push(c);
        k += 1;
        assert(upto@ =~= chars@.subrange(start as int, k as int));
    }
    proof {
        lemma_find_semi_scan(after, k - start);
        assert(upto@ =~= after.take(k - start));
        if (k as int) < chars@.len() {
            assert(spec_find_semi(after) == Some(k - start));
        } else {
            assert(after.take(k - start) =~= after);
        }
    }
    let text = utils::string_from_chars(&upto);
    match utils::parse_i64(text.as_str()) {
        Some(v) => v,
        None => 220980,
    }
}

/// What reading the wire envelope out of a response body yields: the
/// numeric `code`, the `data` text and the `error_msg` text (empty when
/// absent), or nothing when the body is not a JSON object of that shape.
/// Parsing depends on the body text alone.
pub uninterp spec fn envelope_of(s: Seq<char>) -> Option<(i64, Seq<char>, Seq<char>)>;

/// Relies on serde_json::from_str::<Value> and Value::get/as_i64/as_str:
/// reads the `{code, data, errorMsg}` envelope out of a response body, a
/// function of the body text alone; a body without a numeric `code` or a
/// textual `data` has no envelope, and a missing `errorMsg` reads as empty.
#[verifier::external_body]
pub fn extract_envelope(resp_body: &str) -> (r: Option<JmResp>)
    ensures
        r is Some <==> envelope_of(resp_body@) is Some,
        r matches Some(e) ==> (envelope_of(resp_body@) matches Some(t) && e.code == t.0 && e.data@
            == t.1 && e.error_msg@ == t.2),
{
    let v: serde_json::Value = serde_json::from_str(resp_body).ok()?;
    let code = v.get("code")?.as_i64()?;
    let data = v.get("data")?.as_str()?.to_owned();
    let error_msg = match v.get("errorMsg").and_then(|m| m.as_str()) {
        Some(s) => s.to_owned(),
        None => String::new(),
    };
    Some(JmResp { code, data, error_msg })
}

/// The HTTP status and envelope code that signal success.
pub const HTTP_OK: u16 = 200;

pub const ENVELOPE_OK: i64 = 200;

/// Decides what one remote response means. The HTTP status must be the
/// success status, the body must have carried a well-formed envelope, the
/// envelope code must be the success code, and the `data` text must
/// decrypt under the request timestamp; each failure names its stage, and
/// on success the decrypted text is returned.
pub fn unwrap_envelope(status: u16, envelope: Option<JmResp>, raw_body: String, ts: u64) -> (r:
    Result<String, ClientError>)
    ensures
        status != HTTP_OK ==> (r matches Err(ClientError::RemoteStatusError { status: s, body })
            && s == status && body == raw_body),
        status == HTTP_OK && envelope is None ==> (r matches Err(
            ClientError::RemoteSchemaError { raw },
        ) && raw == raw_body),
        status == HTTP_OK && envelope is Some && envelope->0.code != ENVELOPE_OK ==> (r matches Err(
            ClientError::RemoteApiError { code, body },
        ) && code == envelope->0.code && body == raw_body),
        status == HTTP_OK && envelope is Some && envelope->0.code == ENVELOPE_OK ==> {
            let d = spec_decrypt_with_key(spec_key(ts as nat, APP_DATA_SECRET@), envelope->0.data@);
            &&& d is Ok ==> r is Ok && r->Ok_0@ == d->Ok_0
            &&& d is Err ==> (r matches Err(ClientError::Crypto(c)) && c == d->Err_0)
        },
{
    if status != HTTP_OK {
        return Err(ClientError::RemoteStatusError { status, body: raw_body });
    }
    let envelope = match envelope {
        Some(e) => e,
        None => {
            return Err(ClientError::RemoteSchemaError { raw: raw_body });
        },
    };
    if envelope.code != ENVELOPE_OK {
        return Err(ClientError::RemoteApiError { code: envelope.code, body: raw_body });
    }
    match decrypt_data(ts, envelope.data.as_str()) {
        Ok(plain) => Ok(plain),
        Err(e) => Err(ClientError::Crypto(e)),
    }
}

/// Processes one remote response end to end: the envelope is read from the
/// body and judged by `unwrap_envelope` under the request timestamp. Every
/// outcome is fixed by the status, the body's envelope and the timestamp.
pub fn process_response(status: u16, resp_body: String, ts: u64) -> (r: Result<
    String,
    ClientError,
>)
    ensures
        status != HTTP_OK ==> (r matches Err(ClientError::RemoteStatusError { status: s, body })
            && s == status && body == resp_body),
        status == HTTP_OK && envelope_of(resp_body@) is None ==> (r matches Err(
            ClientError::RemoteSchemaError { raw },
        ) && raw == resp_body),
        status == HTTP_OK && envelope_of(resp_body@) is Some ==> ({
            let t = envelope_of(resp_body@)->0;
            let d = spec_decrypt_with_key(spec_key(ts as nat, APP_DATA_SECRET@), t.1);
            &&& t.0 != ENVELOPE_OK ==> (r matches Err(ClientError::RemoteApiError { code, body })
                && code == t.0 && body == resp_body)
            &&& t.0 == ENVELOPE_OK && d is Ok ==> r is Ok && r->Ok_0@ == d->Ok_0
            &&& t.0 == ENVELOPE_OK && d is Err ==> (r matches Err(ClientError::Crypto(c)) && c
                == d->Err_0)
        }),
{
    let envelope = extract_envelope(resp_body.as_str());
    unwrap_envelope(status, envelope, resp_body, ts)
}

/// How a search response continues: a redirected single match names the
/// comic to fetch; any other well-formed response is a result list.
#[derive(Debug, Clone, Copy, PartialEq, Eq, Structural)]
pub enum SearchOutcome {
    Redirect(i64),
    List,
}

/// The redirect target carried by a decrypted search payload: the text of
/// its `redirect_aid` field, or nothing when the payload is not the
/// redirect shape. Parsing depends on the payload text alone.
pub uninterp spec fn redirect_aid_of(s: Seq<char>) -> Option<Seq<char>>;

/// Relies on serde_json::from_str::<Value>, Value::get and Value::as_str:
/// reads the redirect target out of a decrypted search payload, a function
/// of the payload text alone; `search_outcome` decides what either shape
/// means.
#[verifier::external_body]
pub fn extract_redirect_aid(data: &str) -> (r: Option<String>)
    ensures
        r is Some <==> redirect_aid_of(data@) is Some,
        r matches Some(aid) ==> aid@ == redirect_aid_of(data@)->0,
{
    let v: serde_json::Value = serde_json::from_str(data).ok()?;
    Some(v.get("redirect_aid")?.as_str()?.to_owned())
}

/// Decides how a search response continues: a payload carrying a redirect
/// id leads to one follow-up fetch of that comic, and a redirect id that is
/// not a number is a schema error; everything else is an ordinary result
/// list.
pub fn search_outcome(redirect_aid: Option<String>, data: String) -> (r: Result<
    SearchOutcome,
    ClientError,
>)
    ensures
        redirect_aid is None ==> r == Ok::<SearchOutcome, ClientError>(SearchOutcome::List),
        redirect_aid matches Some(aid) ==> match utils::spec_parse_i64(aid@) {
            Some(id) => r == Ok::<SearchOutcome, ClientError>(SearchOutcome::Redirect(id)),
            None => (r matches Err(ClientError::RemoteSchemaError { raw }) && raw == data),
        },
{
    match redirect_aid {
        None => Ok(SearchOutcome::List),
        Some(aid) => match utils::parse_i64(aid.as_str()) {
            Some(id) => Ok(SearchOutcome::Redirect(id)),
            None => Err(ClientError::RemoteSchemaError { raw: data }),
        },
    }
}

/// The full request URL of an endpoint.
pub fn build_api_url(path: ApiPath) -> (r: String)
    ensures
        r@ == "https://"@ + API_DOMAIN@ + spec_api_path_str(path),
{
    let mut v = utils::chars_of("https://");
    let mut part = utils::chars_of(API_DOMAIN);
    v.append(&mut part);
    let mut part = utils::chars_of(path.as_str());
    v.append(&mut part);
    utils::string_from_chars(&v)
}

/// The signing token and `token-param` header of one request: the token is
/// the digest of the timestamp and the endpoint's own secret.
pub fn build_auth(path: ApiPath, ts: u64) -> (r: (String, String))
    ensures
        r.0@ == spec_key(ts as nat, spec_signing_secret(path)),
        r.1@ == utils::spec_dec_chars(ts as nat) + ","@ + APP_VERSION@,
{
    let token = sign(ts, path.signing_secret());
    let param = tokenparam(ts);
    (token, param)
}

/// Whether an image fetch must be retried with a cache-busting timestamp:
/// an empty body on the first attempt means the CDN's cache went stale;
/// after one retry, or for any non-empty body, the bytes stand.
pub fn img_fetch_needs_retry(image_data: &Vec<u8>, already_retried: bool) -> (r: bool)
    ensures
        r == (image_data@.len() == 0 && !already_retried),
{
    image_data.len() == 0 && !already_retried
}

/// Prefixes a freshly fetched user profile's photo name with the image
/// CDN's user-media directory.
pub fn rewrite_user_photo(profile: &mut GetUserProfileRespData)
    ensures
        final(profile).photo@ == "https://"@ + IMAGE_DOMAIN@ + "/media/users/"@ + old(
            profile,
        ).photo@,
        *final(profile) == (GetUserProfileRespData { photo: final(profile).photo, ..*old(profile) }),
{
    let mut v = utils::chars_of("https://");
    let mut part = utils::chars_of(IMAGE_DOMAIN);
    v.append(&mut part);
    let mut part = utils::chars_of("/media/users/");
    v.append(&mut part);
    let mut part = utils::chars_of(profile.photo.as_str());
    v.append(&mut part);
    profile.photo = utils::string_from_chars(&v);
}

/// One request parameter: a name and its textual value.
pub open spec fn param_is(p: (String, String), name: Seq<char>, value: Seq<char>) -> bool {
    p.0@ == name && p.1@ == value
}

/// The login form: the account's name and password.
pub fn login_form(username: &str, password: &str) -> (r: Vec<(String, String)>)
    ensures
        r@.len() == 2,
        param_is(r@[0], "username"@, username@),
        param_is(r@[1], "password"@, password@),
{
    let mut r: Vec<(String, String)> = Vec::new();
    r.push(("username".to_owned(), username.to_owned()));
    r.push(("password".to_owned(), password.to_owned()));
    r
}

/// The search query: the fixed main tag, the keyword, the page, and the
/// sort order's wire value.
pub fn search_query(keyword: &str, page: i64, sort: SearchSort) -> (r: Vec<(String, String)>)
    ensures
        r@.len() == 4,
        param_is(r@[0], "main_tag"@, "0"@),
        param_is(r@[1], "search_query"@, keyword@),
        param_is(r@[2], "page"@, utils::spec_i64_dec_chars(page as int)),
        param_is(r@[3], "o"@, spec_search_sort_str(sort)),
{
    let mut r: Vec<(String, String)> = Vec::new();
    r.push(("main_tag".to_owned(), "0".to_owned()));
    r.push(("search_query".to_owned(), keyword.to_owned()));
    r.push(("page".to_owned(), utils::i64_to_dec_string(page)));
    r.push(("o".to_owned(), sort.as_str().to_owned()));
    r
}

/// The query that fetches one comic by id.
pub fn comic_query(aid: i64) -> (r: Vec<(String, String)>)
    ensures
        r@.len() == 1,
        param_is(r@[0], "id"@, utils::spec_i64_dec_chars(aid as int)),
{
    let mut r: Vec<(String, String)> = Vec::new();
    r.push(("id".to_owned(), utils::i64_to_dec_string(aid)));
    r
}

/// The query that fetches one chapter by id.
pub fn chapter_query(id: i64) -> (r: Vec<(String, String)>)
    ensures
        r@.len() == 1,
        param_is(r@[0], "id"@, utils::spec_i64_dec_chars(id as int)),
{
    let mut r: Vec<(String, String)> = Vec::new();
    r.push(("id".to_owned(), utils::i64_to_dec_string(id)));
    r
}

/// The query that fetches a chapter's descrambling context, carrying the
/// same timestamp that signs the request.
pub fn scramble_query(id: i64, ts: u64) -> (r: Vec<(String, String)>)
    ensures
        r@.len() == 6,
        param_is(r@[0], "id"@, utils::spec_i64_dec_chars(id as int)),
        param_is(r@[1], "v"@, utils::spec_dec_chars(ts as nat)),
        param_is(r@[2], "mode"@, "vertical"@),
        param_is(r@[3], "page"@, "0"@),
        param_is(r@[4], "app_img_shunt"@, "1"@),
        param_is(r@[5], "express"@, "off"@),
{
    let mut r: Vec<(String, String)> = Vec::new();
    r.push(("id".to_owned(), utils::i64_to_dec_string(id)));
    r.push(("v".to_owned(), utils::u64_to_dec_string(ts)));
    r.push(("mode".to_owned(), "vertical".to_owned()));
    r.push(("page".to_owned(), "0".to_owned()));
    r.push(("app_img_shunt".to_owned(), "1".to_owned()));
    r.push(("express".to_owned(), "off".to_owned()));
    r
}

/// The query that lists one favorite folder page.
pub fn favorite_query(folder_id: i64, page: i64, sort: FavoriteSort) -> (r: Vec<(String, String)>)
    ensures
        r@.len() == 3,
        param_is(r@[0], "page"@, utils::spec_i64_dec_chars(page as int)),
        param_is(r@[1], "o"@, spec_favorite_sort_str(sort)),
        param_is(r@[2], "folder_id"@, utils::spec_i64_dec_chars(folder_id as int)),
{
    let mut r: Vec<(String, String)> = Vec::new();
    r.push(("page".to_owned(), utils::i64_to_dec_string(page)));
    r.push(("o".to_owned(), sort.as_str().to_owned()));
    r.push(("folder_id".to_owned(), utils::i64_to_dec_string(folder_id)));
    r
}

/// The form that favorites or unfavorites one comic.
pub fn toggle_favorite_form(aid: i64) -> (r: Vec<(String, String)>)
    ensures
        r@.len() == 1,
        param_is(r@[0], "aid"@, utils::spec_i64_dec_chars(aid as int)),
{
    let mut r: Vec<(String, String)> = Vec::new();
    r.push(("aid".to_owned(), utils::i64_to_dec_string(aid)));
    r
}

} // verus!
