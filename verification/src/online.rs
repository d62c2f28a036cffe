//! The reading server's side of the reader: the identifier a file's
//! progress is kept under, the addresses of the server's endpoints, and
//! reading its answers. Talking to the server is the program's business.

use vstd::prelude::*;
use crate::search::str_find;
use crate::text::{chars_of, parse_usize, parse_usize_spec, push_char, push_str, string_of};

verus! {

/// The server's address.
pub open spec fn server_url() -> Seq<char> {
    "http://localhost:3001"@
}

/// The lowercase hexadecimal digit for a value below sixteen.
pub open spec fn hex_digit(n: nat) -> char {
    if n < 10 {
        (('0' as u32) + n) as char
    } else {
        (('a' as u32) + (n - 10)) as char
    }
}

/// Two lowercase hexadecimal digits for each byte.
pub open spec fn hex_of(bs: Seq<u8>) -> Seq<char>
    decreases bs.len(),
{
    if bs.len() == 0 {
        seq![]
    } else {
        hex_of(bs.drop_last()) + seq![hex_digit((bs.last() / 16) as nat), hex_digit((bs.last() % 16) as nat)]
    }
}

/// The hyphenated lowercase form of a UUID's sixteen bytes: groups of
/// 4, 2, 2, 2 and 6 bytes in hexadecimal, joined by `-`.
pub open spec fn hyphenated(bs: Seq<u8>) -> Seq<char> {
    hex_of(bs.subrange(0, 4)) + seq!['-'] + hex_of(bs.subrange(4, 6)) + seq!['-'] + hex_of(
        bs.subrange(6, 8),
    ) + seq!['-'] + hex_of(bs.subrange(8, 10)) + seq!['-'] + hex_of(bs.subrange(10, 16))
}

/// Byte `i` (from the most significant) of `h` in big-endian order.
pub open spec fn be_byte(h: u64, i: int) -> u8 {
    ((h >> ((7 - i) * 8) as u64) & 0xff) as u8
}

/// The bytes of a file's progress identifier: the eight big-endian bytes
/// of the hash of its path, twice.
pub open spec fn file_uuid_bytes(h: u64) -> Seq<u8> {
    Seq::new(16, |i: int| be_byte(h, i % 8))
}

/// Calls `uuid::Uuid::from_bytes` and formats the UUID with its `Display`
/// implementation, which the crate writes as the hyphenated lowercase
/// hexadecimal form of the bytes in order; this is what the contract
/// claims.
#[verifier::external_body]
fn uuid_text(bytes: [u8; 16]) -> (r: String)
    ensures
        r@ == hyphenated(bytes@),
{
    uuid::Uuid::from_bytes(bytes).to_string()
}

/// The identifier under which the progress of the file whose path hashes
/// to `path_hash` is kept (see `file_uuid_bytes`), in hyphenated form.
pub fn file_uuid(path_hash: u64) -> (r: String)
    ensures
        r@ == hyphenated(file_uuid_bytes(path_hash)),
{
    let h = path_hash;
    let b0 = ((h >> 56u64) & 0xff) as u8;
    let b1 = ((h >> 48u64) & 0xff) as u8;
    let b2 = ((h >> 40u64) & 0xff) as u8;
    let b3 = ((h >> 32u64) & 0xff) as u8;
    let b4 = ((h >> 24u64) & 0xff) as u8;
    let b5 = ((h >> 16u64) & 0xff) as u8;
    let b6 = ((h >> 8u64) & 0xff) as u8;
    let b7 = (h & 0xff) as u8;
    let bytes: [u8; 16] = [b0, b1, b2, b3, b4, b5, b6, b7, b0, b1, b2, b3, b4, b5, b6, b7];
    proof {
        assert(h >> 0u64 == h) by (bit_vector);
        assert(bytes@ =~= file_uuid_bytes(h));
    }
    uuid_text(bytes)
}

/// The name of the file at `path`, as `Path::file_name` gives it.
pub uninterp spec fn spec_file_name(path: Seq<char>) -> Option<Seq<char>>;

/// Calls `std::path::Path::file_name` on `path`, as text: the last
/// component, or nothing when the path ends in `..` or is a root. The
/// contract only names the result (`spec_file_name`).
#[verifier::external_body]
fn file_name_of(path: &str) -> (r: Option<String>)
    ensures
        r matches Some(s) ==> spec_file_name(path@) == Some(s@),
        r is None ==> spec_file_name(path@) is None,
{
    std::path::Path::new(path).file_name().and_then(|n| n.to_str()).map(|n| n.to_string())
}

/// The address from which the text of the file at `file_path` is fetched:
/// by its file name, or `sample.txt` when it has none.
pub fn file_content_url(file_path: &str) -> (r: String)
    ensures
        r@ == server_url() + "/file/"@ + match spec_file_name(file_path@) {
            Some(n) => n,
            None => "sample.txt"@,
        },
{
    let mut r = string_of("http://localhost:3001");
    push_str(&mut r, "/file/");
    match file_name_of(file_path) {
        Some(n) => push_str(&mut r, n.as_str()),
        None => push_str(&mut r, "sample.txt"),
    }
    r
}

/// The file name under which the file at `path` is uploaded, or the
/// message `Invalid file path: <path>` when it has none.
pub fn upload_file_name(path: &str) -> (r: Result<String, String>)
    ensures
        r matches Ok(n) ==> spec_file_name(path@) == Some(n@),
        r matches Err(m) ==> spec_file_name(path@) is None && m@ == "Invalid file path: "@ + path@,
{
    match file_name_of(path) {
        Some(n) => Ok(n),
        None => {
            let mut m = string_of("Invalid file path: ");
            push_str(&mut m, path);
            Err(m)
        },
    }
}

/// The address of the endpoint `tail` of the server.
pub fn endpoint_url(tail: &str) -> (r: String)
    ensures
        r@ == server_url() + tail@,
{
    let mut r = string_of("http://localhost:3001");
    push_str(&mut r, tail);
    r
}

/// The address that takes the lock on a file's progress.
pub fn lock_url() -> (r: String)
    ensures
        r@ == server_url() + "/progress/lock"@,
{
    endpoint_url("/progress/lock")
}

/// The address that records a new reading position.
pub fn update_url() -> (r: String)
    ensures
        r@ == server_url() + "/progress/update"@,
{
    endpoint_url("/progress/update")
}

/// The address that releases the lock on a file's progress.
pub fn release_url() -> (r: String)
    ensures
        r@ == server_url() + "/progress/release"@,
{
    endpoint_url("/progress/release")
}

/// The address to which files are uploaded.
pub fn upload_url() -> (r: String)
    ensures
        r@ == server_url() + "/file/upload"@,
{
    endpoint_url("/file/upload")
}

/// The address of the progress with identifier `id`.
pub fn progress_url(id: &str) -> (r: String)
    ensures
        r@ == server_url() + "/progress/"@ + id@,
{
    let mut r = string_of("http://localhost:3001");
    push_str(&mut r, "/progress/");
    push_str(&mut r, id);
    r
}

/// Whether the server refused the lock because another reader holds it:
/// its message says `locked by`.
pub fn is_lock_conflict(message: &str) -> (r: bool)
    ensures
        r == str_find(message@, "locked by"@) is Some,
{
    let h = chars_of(message);
    let n = chars_of("locked by");
    crate::search::find_exec(&h, &n).is_some()
}

/// `s` with every carriage return removed.
pub fn strip_carriage_returns(s: &str) -> (r: String)
    ensures
        r@ == s@.filter(|c: char| c != '\r'),
{
    let n = s.unicode_len();
    let mut r = String::new();
    let mut i: usize = 0;
    while i < n
        invariant
            n == s@.len(),
            i <= n,
            r@ == s@.take(i as int).filter(|c: char| c != '\r'),
        decreases n - i,
    {
        let c = s.get_char(i);
        assert(s@.take(i + 1) =~= s@.take(i as int).push(c));
        proof {
            s@.take(i as int).lemma_filter_push(c, |c: char| c != '\r');
        }
        if c != '\r' {
            push_char(&mut r, c);
        }
        i = i + 1;
    }
    assert(s@.take(n as int) =~= s@);
    r
}

/// The column width given on the command line: the number given, or 110
/// when none is given or it is not a number.
pub fn parse_col(arg: Option<&str>) -> (r: usize)
    ensures
        r == match arg {
            Some(x) => match parse_usize_spec(x@) {
                Some(n) => n,
                None => 110,
            },
            None => 110,
        },
{
    match arg {
        Some(x) => {
            let cs = chars_of(x);
            match parse_usize(cs.as_slice()) {
                Some(n) => n,
                None => 110,
            }
        },
        None => 110,
    }
}

} // verus!
