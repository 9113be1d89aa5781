//! File preview classification and payload building: the pure half of
//! the preview operation.  The host hands in what it observed of the
//! file (existence, size, content bytes); everything decided from those
//! observations — extension parsing, text/binary detection, base64
//! encoding, boundary-respecting truncation — is verified here.

use vstd::prelude::*;

use crate::envelope::{DataValue, ResponseModel};
use crate::platform::lossy_chars;

use vstd::string::StringExecFns;

verus! {

/// The UTF-8 encoding of one character.
pub open spec fn utf8_encode_char(c: char) -> Seq<u8> {
    let v = c as int;
    if v < 0x80 {
        seq![v as u8]
    } else if v < 0x800 {
        seq![(0xC0 + v / 0x40) as u8, (0x80 + v % 0x40) as u8]
    } else if v < 0x10000 {
        seq![
            (0xE0 + v / 0x1000) as u8,
            (0x80 + (v / 0x40) % 0x40) as u8,
            (0x80 + v % 0x40) as u8,
        ]
    } else {
        seq![
            (0xF0 + v / 0x40000) as u8,
            (0x80 + (v / 0x1000) % 0x40) as u8,
            (0x80 + (v / 0x40) % 0x40) as u8,
            (0x80 + v % 0x40) as u8,
        ]
    }
}

/// The UTF-8 encoding of a text.
pub open spec fn utf8_bytes(s: Seq<char>) -> Seq<u8>
    decreases s.len(),
{
    if s.len() == 0 {
        Seq::empty()
    } else {
        utf8_encode_char(s.first()) + utf8_bytes(s.drop_first())
    }
}

/// Relies on str::as_bytes: a string's bytes are the UTF-8 encoding of
/// its characters.
#[verifier::external_body]
pub(crate) fn str_utf8_bytes(s: &str) -> (r: Vec<u8>)
    ensures
        r@ == utf8_bytes(s@),
{
    s.as_bytes().to_vec()
}

/// Whether the bytes are valid UTF-8: the encoding of some text.
pub open spec fn utf8_valid(bytes: Seq<u8>) -> bool {
    exists|s: Seq<char>| utf8_bytes(s) == bytes
}

/// Relies on core::str::from_utf8: it accepts a byte sequence if and
/// only if the bytes are the UTF-8 encoding of some text.
#[verifier::external_body]
pub(crate) fn check_utf8(bytes: &Vec<u8>) -> (r: bool)
    ensures
        r == utf8_valid(bytes@),
{
    core::str::from_utf8(bytes.as_slice()).is_ok()
}

/// The index of the last occurrence of `b`, if any.
pub open spec fn last_byte(s: Seq<u8>, b: u8) -> Option<int>
    decreases s.len(),
{
    if s.len() == 0 {
        None
    } else if s.last() == b {
        Some(s.len() - 1)
    } else {
        last_byte(s.drop_last(), b)
    }
}

proof fn lemma_last_byte_prefix(s: Seq<u8>, b: u8, j: int)
    requires
        0 <= j <= s.len(),
        forall|m: int| j <= m < s.len() ==> s[m] != b,
    ensures
        last_byte(s, b) == last_byte(s.take(j), b),
    decreases s.len() - j,
{
    if j < s.len() {
        assert(s.take(s.len() as int) =~= s);
        assert(s.take(j + 1).drop_last() =~= s.take(j));
        lemma_last_byte_prefix(s, b, j + 1);
        assert(s.take(j + 1).last() == s[j]);
        if j + 1 < s.len() {
        } else {
            assert(s.take(j + 1) =~= s);
        }
    } else {
        assert(s.take(j) =~= s);
    }
}

/// A found index is in range and holds the byte.
proof fn lemma_last_byte_bounds(s: Seq<u8>, b: u8)
    ensures
        match last_byte(s, b) {
            Some(i) => 0 <= i < s.len() && s[i] == b,
            None => true,
        },
    decreases s.len(),
{
    if s.len() > 0 && s.last() != b {
        lemma_last_byte_bounds(s.drop_last(), b);
    }
}

/// Find the last occurrence of a byte.
pub fn find_last(v: &Vec<u8>, b: u8) -> (r: Option<usize>)
    ensures
        match r {
            Some(i) => last_byte(v@, b) == Some(i as int),
            None => last_byte(v@, b) is None,
        },
{
    let mut j: usize = v.len();
    while j > 0
        invariant
            j <= v@.len(),
            forall|m: int| j <= m < v@.len() ==> v@[m] != b,
        decreases j,
    {
        if v[j - 1] == b {
            proof {
                lemma_last_byte_prefix(v@, b, j as int);
                assert(v@.take(j as int).last() == v@[j - 1]);
            }
            return Some(j - 1);
        }
        j = j - 1;
    }
    proof {
        lemma_last_byte_prefix(v@, b, 0);
        assert(v@.take(0) =~= Seq::<u8>::empty());
    }
    None
}

/// Copy out a byte range.
pub fn slice_range(v: &Vec<u8>, from: usize, to: usize) -> (r: Vec<u8>)
    requires
        from <= to <= v@.len(),
    ensures
        r@ == v@.subrange(from as int, to as int),
{
    let mut r: Vec<u8> = Vec::new();
    let mut i = from;
    while i < to
        invariant
            from <= i <= to <= v@.len(),
            r@ == v@.subrange(from as int, i as int),
        decreases to - i,
    {
        r.push(v[i]);
        proof {
            assert(v@.subrange(from as int, i + 1) =~= v@.subrange(from as int, i as int).push(
                v@[i as int],
            ));
        }
        i = i + 1;
    }
    r
}

/// The final path component: everything after the last '/' (the whole
/// path if it has none).
pub open spec fn file_name_b(path: Seq<u8>) -> Seq<u8> {
    match last_byte(path, 47) {
        None => path,
        Some(i) => path.skip(i + 1),
    }
}

/// The extension of a file name: what follows the last '.', unless that
/// '.' starts the name or the name has none.
pub open spec fn ext_b(name: Seq<u8>) -> Seq<u8> {
    match last_byte(name, 46) {
        None => Seq::empty(),
        Some(d) => if d == 0 {
            Seq::empty()
        } else {
            name.skip(d + 1)
        },
    }
}

/// ASCII lowercase folding of a byte.
pub open spec fn lower_byte(b: u8) -> u8 {
    if 65 <= b <= 90 {
        (b + 32) as u8
    } else {
        b
    }
}

/// ASCII lowercase folding of an extension.
pub open spec fn lower_bytes(s: Seq<u8>) -> Seq<u8> {
    s.map_values(|b: u8| lower_byte(b))
}

/// The lowercased extension of a path, the key the classification
/// turns on.
pub open spec fn path_ext(path: Seq<char>) -> Seq<u8> {
    lower_bytes(ext_b(file_name_b(utf8_bytes(path))))
}

/// Extract the lowercased extension bytes of a path.
pub fn extract_ext(path: &String) -> (r: (Vec<u8>, Vec<u8>))
    ensures
        r.0@ == file_name_b(utf8_bytes(path@)),
        r.1@ == path_ext(path@),
{
    let pb = str_utf8_bytes(path.as_str());
    let name = match find_last(&pb, 47) {
        None => {
            let whole = slice_range(&pb, 0, pb.len());
            proof {
                assert(whole@ =~= pb@);
            }
            whole
        },
        Some(i) => {
            proof {
                lemma_last_byte_bounds(pb@, 47);
            }
            let tail = slice_range(&pb, i + 1, pb.len());
            proof {
                assert(tail@ =~= pb@.skip(i + 1));
            }
            tail
        },
    };
    let ext0 = match find_last(&name, 46) {
        None => {
            let empty: Vec<u8> = Vec::new();
            proof {
                assert(empty@ =~= ext_b(name@));
            }
            empty
        },
        Some(d) => {
            if d == 0 {
                let empty: Vec<u8> = Vec::new();
                proof {
                    assert(empty@ =~= ext_b(name@));
                }
                empty
            } else {
                proof {
                    lemma_last_byte_bounds(name@, 46);
                }
                let tail = slice_range(&name, d + 1, name.len());
                proof {
                    assert(tail@ =~= name@.skip(d + 1));
                }
                tail
            }
        },
    };
    let mut ext: Vec<u8> = Vec::new();
    let mut i: usize = 0;
    while i < ext0.len()
        invariant
            i <= ext0@.len(),
            ext@ == lower_bytes(ext0@.take(i as int)),
        decreases ext0@.len() - i,
    {
        let b = ext0[i];
        let lb = if 65 <= b && b <= 90 {
            b + 32
        } else {
            b
        };
        ext.push(lb);
        proof {
            assert(lower_bytes(ext0@.take(i + 1)) =~= lower_bytes(ext0@.take(i as int)).push(
                lower_byte(ext0@[i as int]),
            ));
        }
        i = i + 1;
    }
    proof {
        assert(ext0@.take(ext0@.len() as int) =~= ext0@);
    }
    (name, ext)
}

/// The image extensions the preview renders inline.
pub open spec fn is_image_ext(e: Seq<u8>) -> bool {
    ||| e == utf8_bytes("jpg"@)
    ||| e == utf8_bytes("jpeg"@)
    ||| e == utf8_bytes("png"@)
    ||| e == utf8_bytes("gif"@)
    ||| e == utf8_bytes("bmp"@)
    ||| e == utf8_bytes("webp"@)
    ||| e == utf8_bytes("svg"@)
    ||| e == utf8_bytes("ico"@)
}

/// The extensions presumed to name text files.
pub open spec fn is_text_ext(e: Seq<u8>) -> bool {
    ||| e == utf8_bytes("txt"@)
    ||| e == utf8_bytes("md"@)
    ||| e == utf8_bytes("json"@)
    ||| e == utf8_bytes("xml"@)
    ||| e == utf8_bytes("html"@)
    ||| e == utf8_bytes("css"@)
    ||| e == utf8_bytes("js"@)
    ||| e == utf8_bytes("ts"@)
    ||| e == utf8_bytes("rs"@)
    ||| e == utf8_bytes("py"@)
    ||| e == utf8_bytes("java"@)
    ||| e == utf8_bytes("c"@)
    ||| e == utf8_bytes("cpp"@)
    ||| e == utf8_bytes("h"@)
    ||| e == utf8_bytes("hpp"@)
    ||| e == utf8_bytes("go"@)
    ||| e == utf8_bytes("rb"@)
    ||| e == utf8_bytes("php"@)
    ||| e == utf8_bytes("sh"@)
    ||| e == utf8_bytes("bash"@)
    ||| e == utf8_bytes("zsh"@)
    ||| e == utf8_bytes("yaml"@)
    ||| e == utf8_bytes("yml"@)
    ||| e == utf8_bytes("toml"@)
    ||| e == utf8_bytes("ini"@)
    ||| e == utf8_bytes("cfg"@)
    ||| e == utf8_bytes("log"@)
    ||| e == utf8_bytes("conf"@)
    ||| e == utf8_bytes("properties"@)
    ||| e == utf8_bytes("env"@)
    ||| e == utf8_bytes("gitignore"@)
    ||| e == utf8_bytes("dockerignore"@)
    ||| e == utf8_bytes("editorconfig"@)
}

/// Compare an extension against one candidate.
fn ext_is(e: &Vec<u8>, lit: &str) -> (r: bool)
    ensures
        r == (e@ == utf8_bytes(lit@)),
{
    let lb = str_utf8_bytes(lit);
    crate::parse::bytes_eq(e, lb.as_slice())
}

pub fn image_ext(e: &Vec<u8>) -> (r: bool)
    ensures
        r == is_image_ext(e@),
{
    ext_is(e, "jpg") || ext_is(e, "jpeg") || ext_is(e, "png") || ext_is(e, "gif") || ext_is(
        e,
        "bmp",
    ) || ext_is(e, "webp") || ext_is(e, "svg") || ext_is(e, "ico")
}

pub fn text_ext(e: &Vec<u8>) -> (r: bool)
    ensures
        r == is_text_ext(e@),
{
    ext_is(e, "txt") || ext_is(e, "md") || ext_is(e, "json") || ext_is(e, "xml") || ext_is(
        e,
        "html",
    ) || ext_is(e, "css") || ext_is(e, "js") || ext_is(e, "ts") || ext_is(e, "rs") || ext_is(
        e,
        "py",
    ) || ext_is(e, "java") || ext_is(e, "c") || ext_is(e, "cpp") || ext_is(e, "h") || ext_is(
        e,
        "hpp",
    ) || ext_is(e, "go") || ext_is(e, "rb") || ext_is(e, "php") || ext_is(e, "sh") || ext_is(
        e,
        "bash",
    ) || ext_is(e, "zsh") || ext_is(e, "yaml") || ext_is(e, "yml") || ext_is(e, "toml") || ext_is(
        e,
        "ini",
    ) || ext_is(e, "cfg") || ext_is(e, "log") || ext_is(e, "conf") || ext_is(e, "properties")
        || ext_is(e, "env") || ext_is(e, "gitignore") || ext_is(e, "dockerignore") || ext_is(
        e,
        "editorconfig",
    )
}

/// The MIME type the preview reports for an image extension.
pub open spec fn mime_of(e: Seq<u8>) -> Seq<char> {
    if e == utf8_bytes("png"@) {
        "image/png"@
    } else if e == utf8_bytes("gif"@) {
        "image/gif"@
    } else if e == utf8_bytes("bmp"@) {
        "image/bmp"@
    } else if e == utf8_bytes("webp"@) {
        "image/webp"@
    } else if e == utf8_bytes("svg"@) {
        "image/svg+xml"@
    } else {
        "image/jpeg"@
    }
}

fn mime_str(e: &Vec<u8>) -> (r: &'static str)
    ensures
        r@ == mime_of(e@),
{
    if ext_is(e, "png") {
        "image/png"
    } else if ext_is(e, "gif") {
        "image/gif"
    } else if ext_is(e, "bmp") {
        "image/bmp"
    } else if ext_is(e, "webp") {
        "image/webp"
    } else if ext_is(e, "svg") {
        "image/svg+xml"
    } else {
        "image/jpeg"
    }
}

/// The base64 digit of one 6-bit value.
pub open spec fn b64_digit(v: int) -> u8 {
    if v < 26 {
        (65 + v) as u8
    } else if v < 52 {
        (71 + v) as u8
    } else if v < 62 {
        (v - 4) as u8
    } else if v == 62 {
        43
    } else {
        47
    }
}

/// Standard base64, '=' padded, of a byte sequence, as ASCII bytes.
pub open spec fn b64_spec(data: Seq<u8>) -> Seq<u8>
    decreases data.len(),
{
    if data.len() == 0 {
        Seq::empty()
    } else {
        let b0 = data[0] as int;
        let b1 = if data.len() >= 2 {
            data[1] as int
        } else {
            0
        };
        let b2 = if data.len() >= 3 {
            data[2] as int
        } else {
            0
        };
        let c2 = if data.len() >= 2 {
            b64_digit((b1 % 16) * 4 + b2 / 64)
        } else {
            61
        };
        let c3 = if data.len() >= 3 {
            b64_digit(b2 % 64)
        } else {
            61
        };
        let rest = if data.len() > 3 {
            b64_spec(data.skip(3))
        } else {
            Seq::empty()
        };
        seq![b64_digit(b0 / 4), b64_digit((b0 % 4) * 16 + b1 / 16), c2, c3] + rest
    }
}

/// Base64 output is ASCII.
pub proof fn lemma_b64_ascii(data: Seq<u8>)
    ensures
        forall|i: int| 0 <= i < b64_spec(data).len() ==> b64_spec(data)[i] < 128,
    decreases data.len(),
{
    if data.len() > 0 {
        if data.len() > 3 {
            lemma_b64_ascii(data.skip(3));
        }
        let b0 = data[0] as int;
        let b1 = if data.len() >= 2 {
            data[1] as int
        } else {
            0
        };
        let b2 = if data.len() >= 3 {
            data[2] as int
        } else {
            0
        };
        assert(0 <= b0 / 4 < 64 && b64_digit(b0 / 4) < 128);
        assert(0 <= (b0 % 4) * 16 + b1 / 16 < 64 && b64_digit((b0 % 4) * 16 + b1 / 16) < 128);
        assert(0 <= (b1 % 16) * 4 + b2 / 64 < 64 && b64_digit((b1 % 16) * 4 + b2 / 64) < 128);
        assert(0 <= b2 % 64 < 64 && b64_digit(b2 % 64) < 128);
        let out = b64_spec(data);
        let rest = if data.len() > 3 {
            b64_spec(data.skip(3))
        } else {
            Seq::<u8>::empty()
        };
        assert(out[0] == b64_digit(b0 / 4) && out[1] == b64_digit((b0 % 4) * 16 + b1 / 16));
        assert(out[2] < 128 && out[3] < 128);
        assert forall|i: int| 0 <= i < out.len() implies out[i] < 128 by {
            if i >= 4 {
                assert(out[i] == rest[i - 4]);
            }
        }
    }
}

fn b64_digit_exec(v: u8) -> (r: u8)
    requires
        v < 64,
    ensures
        r == b64_digit(v as int),
{
    if v < 26 {
        65 + v
    } else if v < 52 {
        71 + v
    } else if v < 62 {
        v - 4
    } else if v == 62 {
        43
    } else {
        47
    }
}

/// Standard base64 encoding, three input bytes to four output digits,
/// '=' padded.
pub fn base64_encode(data: &Vec<u8>) -> (r: Vec<u8>)
    ensures
        r@ == b64_spec(data@),
{
    let mut out: Vec<u8> = Vec::new();
    let mut i: usize = 0;
    proof {
        assert(data@.skip(0) =~= data@);
    }
    while i < data.len()
        invariant
            i <= data@.len(),
            b64_spec(data@) == out@ + b64_spec(data@.skip(i as int)),
        decreases data@.len() - i,
    {
        let ghost rest = data@.skip(i as int);
        let remaining = data.len() - i;
        let b0 = data[i];
        let b1 = if remaining > 1 {
            data[i + 1]
        } else {
            0
        };
        let b2 = if remaining > 2 {
            data[i + 2]
        } else {
            0
        };
        let ghost before = out@;
        out.push(b64_digit_exec(b0 / 4));
        out.push(b64_digit_exec((b0 % 4) * 16 + b1 / 16));
        if remaining > 1 {
            out.push(b64_digit_exec((b1 % 16) * 4 + b2 / 64));
        } else {
            out.push(61);
        }
        if remaining > 2 {
            out.push(b64_digit_exec(b2 % 64));
        } else {
            out.push(61);
        }
        proof {
            assert(rest[0] == data@[i as int]);
            if remaining > 1 {
                assert(rest[1] == data@[i + 1]);
            }
            if remaining > 2 {
                assert(rest[2] == data@[i + 2]);
            }
            if rest.len() > 3 {
                assert(rest.skip(3) =~= data@.skip(i + 3));
            }
            assert(out@ =~= before + b64_spec(rest).take(4));
            assert(b64_spec(rest) =~= b64_spec(rest).take(4) + b64_spec(
                if rest.len() > 3 {
                    data@.skip(i + 3)
                } else {
                    Seq::<u8>::empty()
                },
            ));
        }
        if remaining > 3 {
            i = i + 3;
        } else {
            i = data.len();
            proof {
                assert(data@.skip(i as int) =~= Seq::<u8>::empty());
            }
        }
    }
    proof {
        assert(data@.skip(data@.len() as int) =~= Seq::<u8>::empty());
        assert(out@ =~= b64_spec(data@));
    }
    out
}

/// Files at least this large are never sniffed for text content.
pub const PREVIEW_READ_LIMIT: u64 = 1048576;

/// Text previews keep at most this many content bytes.
pub const PREVIEW_TEXT_CAP: usize = 50000;

/// How many leading bytes the text/binary sniff examines.
pub const PREVIEW_SNIFF: usize = 8000;

/// What the host observed of the file to preview.
#[derive(Debug)]
pub struct PreviewInput {
    /// Whether the path exists at all.
    pub exists: bool,
    /// The file's size, if its metadata could be read.
    pub size: Option<u64>,
    /// The file's content, if the host read it.
    pub bytes: Option<Vec<u8>>,
    /// Why a content read failed, when it did.
    pub read_error: Option<String>,
}

/// How a file is rendered.
#[derive(Clone, Copy, PartialEq, Eq, Structural, Debug)]
pub enum PreviewKind {
    Image,
    Text,
    Binary,
    Unknown,
}

/// The preview payload: the single-object shape of the envelope.
#[derive(Debug)]
pub struct PreviewPayload {
    pub name: String,
    pub path: String,
    pub kind: String,
    pub image_url: Option<String>,
    pub content: Option<String>,
}

/// No NUL byte among the leading sniffed bytes.
pub open spec fn zero_free_prefix(bs: Seq<u8>) -> bool {
    forall|i: int| 0 <= i < bs.len() && i < PREVIEW_SNIFF ==> bs[i] != 0
}

/// A byte plain text may hold: printable ASCII, NUL, tab, or a line
/// ending.
pub open spec fn printable_byte(b: u8) -> bool {
    b == 0 || (32 <= b < 127) || b == 9 || b == 10 || b == 13
}

/// Only text-like bytes among the leading sniffed bytes.
pub open spec fn printable_prefix(bs: Seq<u8>) -> bool {
    forall|i: int| 0 <= i < bs.len() && i < PREVIEW_SNIFF ==> printable_byte(bs[i])
}

/// The classification the preview performs, from extension, size and
/// (when read) content: known image extensions render inline; text-like
/// extensions are text unless their content proves binary; anything
/// else is sniffed when small, binary when large, unknown when its
/// metadata was unreadable.
pub open spec fn preview_kind_spec(
    ext: Seq<u8>,
    size: Option<u64>,
    content: Option<Seq<u8>>,
) -> PreviewKind {
    if is_image_ext(ext) {
        PreviewKind::Image
    } else if is_text_ext(ext) {
        match size {
            Some(n) => if n < PREVIEW_READ_LIMIT {
                match content {
                    Some(bs) => if utf8_valid(bs) && zero_free_prefix(bs) {
                        PreviewKind::Text
                    } else {
                        PreviewKind::Binary
                    },
                    None => PreviewKind::Binary,
                }
            } else {
                PreviewKind::Text
            },
            None => PreviewKind::Text,
        }
    } else {
        match size {
            Some(n) => if n < PREVIEW_READ_LIMIT {
                match content {
                    Some(bs) => if printable_prefix(bs) {
                        PreviewKind::Text
                    } else {
                        PreviewKind::Binary
                    },
                    None => PreviewKind::Binary,
                }
            } else {
                PreviewKind::Binary
            },
            None => PreviewKind::Unknown,
        }
    }
}

fn sniff_zero_free(b: &Vec<u8>) -> (r: bool)
    ensures
        r == zero_free_prefix(b@),
{
    let mut i: usize = 0;
    while i < b.len() && i < PREVIEW_SNIFF
        invariant
            i <= b@.len(),
            forall|m: int| 0 <= m < i ==> b@[m] != 0,
        decreases b@.len() - i,
    {
        if b[i] == 0 {
            return false;
        }
        i = i + 1;
    }
    true
}

fn sniff_printable(b: &Vec<u8>) -> (r: bool)
    ensures
        r == printable_prefix(b@),
{
    let mut i: usize = 0;
    while i < b.len() && i < PREVIEW_SNIFF
        invariant
            i <= b@.len(),
            forall|m: int| 0 <= m < i ==> printable_byte(b@[m]),
        decreases b@.len() - i,
    {
        let x = b[i];
        if !(x == 0 || (32 <= x && x < 127) || x == 9 || x == 10 || x == 13) {
            return false;
        }
        i = i + 1;
    }
    true
}

/// Classify from the host's observations.
pub fn classify(ext: &Vec<u8>, size: Option<u64>, bytes: Option<&Vec<u8>>) -> (k: PreviewKind)
    ensures
        k == preview_kind_spec(
            ext@,
            size,
            match bytes {
                Some(b) => Some(b@),
                None => None,
            },
        ),
{
    if image_ext(ext) {
        PreviewKind::Image
    } else if text_ext(ext) {
        match size {
            Some(n) => {
                if n < PREVIEW_READ_LIMIT {
                    match bytes {
                        Some(b) => {
                            if check_utf8(b) && sniff_zero_free(b) {
                                PreviewKind::Text
                            } else {
                                PreviewKind::Binary
                            }
                        },
                        None => PreviewKind::Binary,
                    }
                } else {
                    PreviewKind::Text
                }
            },
            None => PreviewKind::Text,
        }
    } else {
        match size {
            Some(n) => {
                if n < PREVIEW_READ_LIMIT {
                    match bytes {
                        Some(b) => {
                            if sniff_printable(b) {
                                PreviewKind::Text
                            } else {
                                PreviewKind::Binary
                            }
                        },
                        None => PreviewKind::Binary,
                    }
                } else {
                    PreviewKind::Binary
                }
            },
            None => PreviewKind::Unknown,
        }
    }
}

/// A UTF-8 continuation byte; a cut must not land right after one
/// begins.
pub open spec fn is_cont(b: u8) -> bool {
    128 <= b < 192
}

fn is_cont_byte(b: u8) -> (r: bool)
    ensures
        r == is_cont(b),
{
    128 <= b && b < 192
}

/// Back the cut position off to the nearest boundary at or below it.
pub open spec fn cut_back(bs: Seq<u8>, c: int) -> int
    decreases c,
{
    if c <= 0 {
        0
    } else if is_cont(bs[c]) {
        cut_back(bs, c - 1)
    } else {
        c
    }
}

/// The preview text of a content byte sequence: the whole text, or its
/// first bytes cut on a character boundary, with a truncation notice.
pub open spec fn text_content(bs: Seq<u8>) -> Seq<char> {
    if bs.len() > PREVIEW_TEXT_CAP {
        lossy_chars(bs.take(cut_back(bs, PREVIEW_TEXT_CAP as int)))
            + "...\n\n[Content truncated - file too large]"@
    } else {
        lossy_chars(bs)
    }
}

/// Build the preview text, truncating long content on a character
/// boundary rather than mid-character.
pub fn build_text_content(b: &Vec<u8>) -> (r: String)
    ensures
        r@ == text_content(b@),
{
    if b.len() > PREVIEW_TEXT_CAP {
        let mut cut: usize = PREVIEW_TEXT_CAP;
        while cut > 0 && is_cont_byte(b[cut])
            invariant
                cut <= PREVIEW_TEXT_CAP,
                b@.len() > PREVIEW_TEXT_CAP,
                cut_back(b@, PREVIEW_TEXT_CAP as int) == cut_back(b@, cut as int),
            decreases cut,
        {
            cut = cut - 1;
        }
        let head = slice_range(b, 0, cut);
        let hs = crate::platform::bytes_to_string_lossy(&head);
        proof {
            assert(head@ =~= b@.take(cut as int));
            assert(cut_back(b@, cut as int) == cut);
        }
        crate::text::concat2(hs.as_str(), "...\n\n[Content truncated - file too large]")
    } else {
        crate::platform::bytes_to_string_lossy(b)
    }
}

/// ASCII bytes, read as the characters they stand for.
pub open spec fn ascii_chars(bs: Seq<u8>) -> Seq<char> {
    bs.map_values(|b: u8| b as char)
}

/// The inline data URL of an image preview.
pub open spec fn data_url_of(ext: Seq<u8>, content: Seq<u8>) -> Seq<char> {
    "data:"@ + mime_of(ext) + ";base64,"@ + ascii_chars(b64_spec(content))
}

/// The text of each preview kind.
pub open spec fn kind_text(k: PreviewKind) -> Seq<char> {
    match k {
        PreviewKind::Image => "image"@,
        PreviewKind::Text => "text"@,
        PreviewKind::Binary => "binary"@,
        PreviewKind::Unknown => "unknown"@,
    }
}

/// The reason text of a failed read, or nothing.
pub open spec fn read_reason(e: Option<String>) -> Seq<char> {
    match e {
        Some(s) => s@,
        None => Seq::empty(),
    }
}

/// The exact envelope a preview must produce for a path and what the
/// host observed of it.
pub open spec fn preview_post(
    res: Result<ResponseModel, ResponseModel>,
    path: Seq<char>,
    input: PreviewInput,
) -> bool {
    let ext = path_ext(path);
    let kind = preview_kind_spec(
        ext,
        input.size,
        match input.bytes {
            Some(b) => Some(b@),
            None => None,
        },
    );
    let nameb = file_name_b(utf8_bytes(path));
    if !input.exists {
        res matches Err(m) && m.status is Error && m.message@ == "File not found"@
    } else if (kind is Image || kind is Text) && input.bytes is None {
        res matches Err(m) && m.status is Error && m.message@ == "Failed to read file: "@
            + read_reason(input.read_error)
    } else {
        res matches Ok(m) && m.status is Success && m.message@ == "File preview retrieved"@ && (
        m.data matches DataValue::Preview(p) && p.name@ == lossy_chars(nameb) && p.path@ == path
            && p.kind@ == kind_text(kind) && (kind is Image ==> (p.image_url matches Some(u) && u@
            == data_url_of(ext, input.bytes->0@))) && (kind is Text ==> (p.content matches Some(c)
            && c@ == text_content(input.bytes->0@))) && (!(kind is Image) ==> p.image_url is None)
            && (!(kind is Text) ==> p.content is None))
    }
}

/// Build the preview envelope from a path and the host's observations
/// of the file.
pub fn preview_file(path: &String, input: &PreviewInput) -> (res: Result<
    ResponseModel,
    ResponseModel,
>)
    ensures
        preview_post(res, path@, *input),
{
    if !input.exists {
        return Err(
            ResponseModel::error(
                String::from_str("File not found"),
                DataValue::Text(String::new()),
            ),
        );
    }
    let (nameb, ext) = extract_ext(path);
    let kind = match &input.bytes {
        Some(b) => classify(&ext, input.size, Some(b)),
        None => classify(&ext, input.size, None),
    };
    let name_s = crate::platform::bytes_to_string_lossy(&nameb);
    match kind {
        PreviewKind::Image => {
            match &input.bytes {
                None => Err(ResponseModel::error(read_error_message(input), DataValue::Text(String::new()))),
                Some(b) => {
                    let b64v = base64_encode(b);
                    proof {
                        lemma_b64_ascii(b@);
                    }
                    let b64s = crate::platform::bytes_to_string_lossy(&b64v);
                    proof {
                        assert(b64s@ =~= ascii_chars(b64v@));
                    }
                    let head = crate::text::concat3("data:", mime_str(&ext), ";base64,");
                    let url = crate::text::concat2(head.as_str(), b64s.as_str());
                    Ok(
                        ResponseModel::success(
                            String::from_str("File preview retrieved"),
                            DataValue::Preview(
                                PreviewPayload {
                                    name: name_s,
                                    path: path.clone(),
                                    kind: String::from_str("image"),
                                    image_url: Some(url),
                                    content: None,
                                },
                            ),
                        ),
                    )
                },
            }
        },
        PreviewKind::Text => {
            match &input.bytes {
                None => Err(ResponseModel::error(read_error_message(input), DataValue::Text(String::new()))),
                Some(b) => {
                    let content = build_text_content(b);
                    Ok(
                        ResponseModel::success(
                            String::from_str("File preview retrieved"),
                            DataValue::Preview(
                                PreviewPayload {
                                    name: name_s,
                                    path: path.clone(),
                                    kind: String::from_str("text"),
                                    image_url: None,
                                    content: Some(content),
                                },
                            ),
                        ),
                    )
                },
            }
        },
        PreviewKind::Binary => Ok(
            ResponseModel::success(
                String::from_str("File preview retrieved"),
                DataValue::Preview(
                    PreviewPayload {
                        name: name_s,
                        path: path.clone(),
                        kind: String::from_str("binary"),
                        image_url: None,
                        content: None,
                    },
                ),
            ),
        ),
        PreviewKind::Unknown => Ok(
            ResponseModel::success(
                String::from_str("File preview retrieved"),
                DataValue::Preview(
                    PreviewPayload {
                        name: name_s,
                        path: path.clone(),
                        kind: String::from_str("unknown"),
                        image_url: None,
                        content: None,
                    },
                ),
            ),
        ),
    }
}

/// The message of a failed content read.
fn read_error_message(input: &PreviewInput) -> (r: String)
    ensures
        r@ == "Failed to read file: "@ + read_reason(input.read_error),
{
    match &input.read_error {
        Some(e) => crate::text::concat2("Failed to read file: ", e.as_str()),
        None => {
            let r = String::from_str("Failed to read file: ");
            proof {
                assert(r@ =~= "Failed to read file: "@ + Seq::<char>::empty());
            }
            r
        },
    }
}

} // verus!


