//! MIME types and file extensions.
use vstd::prelude::*;
use vstd::string::StrSliceExecFns;

use crate::encoding::{parse_url_path, url_path_of};
use crate::text::{
    ascii_lower, is_unicode_whitespace, lemma_plain_cut_trim,
    before_first, eq_ignore_ascii_case, first_index_of, lemma_cut_trim_idempotent,
    lemma_eq_ignore_case_equiv, lemma_fold_cut_trim, last_index_of, rfind_char, spec_trim,
    str_eq, str_eq_ignore_ascii_case, trim,
};

verus! {

/// Number of entries of the extension → MIME table.
pub const EXTENSION_MAP_LEN: usize = 26;

/// Number of entries of the MIME → extension table.
pub const MIME_TO_EXT_LEN: usize = 14;

/// Entry `i` of the extension → MIME table (extensions with their dot).
pub open spec fn extension_map(i: int) -> (Seq<char>, Seq<char>) {
    if i == 0 {
        (".pdf"@, "application/pdf"@)
    } else if i == 1 {
        (".doc"@, "application/msword"@)
    } else if i == 2 {
        (".docx"@, "application/vnd.openxmlformats-officedocument.wordprocessingml.document"@)
    } else if i == 3 {
        (".xls"@, "application/vnd.ms-excel"@)
    } else if i == 4 {
        (".xlsx"@, "application/vnd.openxmlformats-officedocument.spreadsheetml.sheet"@)
    } else if i == 5 {
        (".ppt"@, "application/vnd.ms-powerpoint"@)
    } else if i == 6 {
        (".pptx"@, "application/vnd.openxmlformats-officedocument.presentationml.presentation"@)
    } else if i == 7 {
        (".txt"@, "text/plain"@)
    } else if i == 8 {
        (".csv"@, "text/csv"@)
    } else if i == 9 {
        (".zip"@, "application/zip"@)
    } else if i == 10 {
        (".tar"@, "application/x-tar"@)
    } else if i == 11 {
        (".gz"@, "application/gzip"@)
    } else if i == 12 {
        (".mp3"@, "audio/mpeg"@)
    } else if i == 13 {
        (".ogg"@, "audio/ogg"@)
    } else if i == 14 {
        (".wav"@, "audio/wav"@)
    } else if i == 15 {
        (".mp4"@, "video/mp4"@)
    } else if i == 16 {
        (".mov"@, "video/quicktime"@)
    } else if i == 17 {
        (".webm"@, "video/webm"@)
    } else if i == 18 {
        (".mkv"@, "video/x-matroska"@)
    } else if i == 19 {
        (".avi"@, "video/x-msvideo"@)
    } else if i == 20 {
        (".png"@, "image/png"@)
    } else if i == 21 {
        (".jpg"@, "image/jpeg"@)
    } else if i == 22 {
        (".jpeg"@, "image/jpeg"@)
    } else if i == 23 {
        (".gif"@, "image/gif"@)
    } else if i == 24 {
        (".webp"@, "image/webp"@)
    } else {
        (".bmp"@, "image/bmp"@)
    }
}

fn extension_map_entry(i: usize) -> (r: (&'static str, &'static str))
    requires
        i < EXTENSION_MAP_LEN,
    ensures
        (r.0@, r.1@) == extension_map(i as int),
{
    match i {
        0 => (".pdf", "application/pdf"),
        1 => (".doc", "application/msword"),
        2 => (".docx", "application/vnd.openxmlformats-officedocument.wordprocessingml.document"),
        3 => (".xls", "application/vnd.ms-excel"),
        4 => (".xlsx", "application/vnd.openxmlformats-officedocument.spreadsheetml.sheet"),
        5 => (".ppt", "application/vnd.ms-powerpoint"),
        6 => (".pptx", "application/vnd.openxmlformats-officedocument.presentationml.presentation"),
        7 => (".txt", "text/plain"),
        8 => (".csv", "text/csv"),
        9 => (".zip", "application/zip"),
        10 => (".tar", "application/x-tar"),
        11 => (".gz", "application/gzip"),
        12 => (".mp3", "audio/mpeg"),
        13 => (".ogg", "audio/ogg"),
        14 => (".wav", "audio/wav"),
        15 => (".mp4", "video/mp4"),
        16 => (".mov", "video/quicktime"),
        17 => (".webm", "video/webm"),
        18 => (".mkv", "video/x-matroska"),
        19 => (".avi", "video/x-msvideo"),
        20 => (".png", "image/png"),
        21 => (".jpg", "image/jpeg"),
        22 => (".jpeg", "image/jpeg"),
        23 => (".gif", "image/gif"),
        24 => (".webp", "image/webp"),
        _ => (".bmp", "image/bmp"),
    }
}

/// Entry `j` of the MIME → extension table.
pub open spec fn mime_to_ext(j: int) -> (Seq<char>, Seq<char>) {
    if j == 0 {
        ("image/jpeg"@, ".jpg"@)
    } else if j == 1 {
        ("image/png"@, ".png"@)
    } else if j == 2 {
        ("image/gif"@, ".gif"@)
    } else if j == 3 {
        ("image/webp"@, ".webp"@)
    } else if j == 4 {
        ("image/bmp"@, ".bmp"@)
    } else if j == 5 {
        ("video/mp4"@, ".mp4"@)
    } else if j == 6 {
        ("video/quicktime"@, ".mov"@)
    } else if j == 7 {
        ("video/webm"@, ".webm"@)
    } else if j == 8 {
        ("audio/mpeg"@, ".mp3"@)
    } else if j == 9 {
        ("audio/ogg"@, ".ogg"@)
    } else if j == 10 {
        ("audio/wav"@, ".wav"@)
    } else if j == 11 {
        ("application/pdf"@, ".pdf"@)
    } else if j == 12 {
        ("application/zip"@, ".zip"@)
    } else {
        ("text/plain"@, ".txt"@)
    }
}

fn mime_to_ext_entry(j: usize) -> (r: (&'static str, &'static str))
    requires
        j < MIME_TO_EXT_LEN,
    ensures
        (r.0@, r.1@) == mime_to_ext(j as int),
{
    match j {
        0 => ("image/jpeg", ".jpg"),
        1 => ("image/png", ".png"),
        2 => ("image/gif", ".gif"),
        3 => ("image/webp", ".webp"),
        4 => ("image/bmp", ".bmp"),
        5 => ("video/mp4", ".mp4"),
        6 => ("video/quicktime", ".mov"),
        7 => ("video/webm", ".webm"),
        8 => ("audio/mpeg", ".mp3"),
        9 => ("audio/ogg", ".ogg"),
        10 => ("audio/wav", ".wav"),
        11 => ("application/pdf", ".pdf"),
        12 => ("application/zip", ".zip"),
        _ => ("text/plain", ".txt"),
    }
}

// ── Extension → MIME ────────────────────────────────────────────────────────

/// Entry `i` of the extension table names `ext` (its key without the dot,
/// ignoring ASCII case).
pub open spec fn ext_entry_matches(i: int, ext: Seq<char>) -> bool {
    extension_map(i).0.len() >= 1 && eq_ignore_ascii_case(extension_map(i).0.skip(1), ext)
}

/// First entry at or after `i` that names `ext`, or the table's length.
pub open spec fn first_ext_entry(ext: Seq<char>, i: int) -> int
    decreases EXTENSION_MAP_LEN - i,
{
    if i >= EXTENSION_MAP_LEN {
        EXTENSION_MAP_LEN as int
    } else if ext_entry_matches(i, ext) {
        i
    } else {
        first_ext_entry(ext, i + 1)
    }
}

proof fn lemma_first_ext_entry_range(ext: Seq<char>, i: int)
    requires
        0 <= i <= EXTENSION_MAP_LEN,
    ensures
        i <= first_ext_entry(ext, i) <= EXTENSION_MAP_LEN,
    decreases EXTENSION_MAP_LEN - i,
{
    if i < EXTENSION_MAP_LEN && !ext_entry_matches(i, ext) {
        lemma_first_ext_entry_range(ext, i + 1);
    }
}

/// The MIME type for a file extension (without its dot), or
/// `application/octet-stream` where there is none or it is not in the table.
pub open spec fn spec_mime_from_extension(ext: Option<Seq<char>>) -> Seq<char> {
    match ext {
        Some(e) => {
            let k = first_ext_entry(e, 0);
            if k < EXTENSION_MAP_LEN {
                extension_map(k).1
            } else {
                "application/octet-stream"@
            }
        },
        None => "application/octet-stream"@,
    }
}

/// MIME type for a file extension given without its dot.
pub fn mime_from_extension(ext: Option<&str>) -> (r: &'static str)
    ensures
        r@ == spec_mime_from_extension(
            match ext {
                Some(e) => Some(e@),
                None => None,
            },
        ),
{
    if let Some(e) = ext {
        let mut i: usize = 0;
        proof {
            lemma_first_ext_entry_range(e@, 0);
        }
        while i < EXTENSION_MAP_LEN
            invariant
                0 <= i <= EXTENSION_MAP_LEN,
                ext matches Some(x) && x@ == e@,
                first_ext_entry(e@, 0) == first_ext_entry(e@, i as int),
            decreases EXTENSION_MAP_LEN - i,
        {
            let (key, mime) = extension_map_entry(i);
            let n = key.unicode_len();
            if n >= 1 {
                let rest = key.substring_char(1, n);
                if str_eq_ignore_ascii_case(rest, e) {
                    proof {
                        assert(rest@ =~= key@.skip(1));
                    }
                    return mime;
                }
                proof {
                    assert(rest@ =~= key@.skip(1));
                }
            }
            i += 1;
        }
    }
    "application/octet-stream"
}

/// The extension of the last component of a path: what
/// `Path::extension` gives, as text.
pub uninterp spec fn path_extension(path: Seq<char>) -> Option<Seq<char>>;

/// `std::path::Path::new(path).extension()`, as text (a `&str` path always
/// gives valid UTF-8 parts).
#[verifier::external_body]
fn path_extension_of(path: &str) -> (r: Option<String>)
    ensures
        match r {
            Some(e) => path_extension(path@) == Some(e@),
            None => path_extension(path@) is None,
        },
{
    std::path::Path::new(path).extension().and_then(|e| e.to_str()).map(|e| e.to_string())
}

/// Get MIME type from file path extension.
pub fn mime_from_path(path: &str) -> (r: &'static str)
    ensures
        r@ == spec_mime_from_extension(path_extension(path@)),
{
    match path_extension_of(path) {
        Some(e) => mime_from_extension(Some(e.as_str())),
        None => mime_from_extension(None),
    }
}

// ── MIME → extension ────────────────────────────────────────────────────────

/// First entry at or after `j` whose MIME type is `ct` ignoring ASCII case,
/// or the table's length.
pub open spec fn first_mime_entry(ct: Seq<char>, j: int) -> int
    decreases MIME_TO_EXT_LEN - j,
{
    if j >= MIME_TO_EXT_LEN {
        MIME_TO_EXT_LEN as int
    } else if eq_ignore_ascii_case(mime_to_ext(j).0, ct) {
        j
    } else {
        first_mime_entry(ct, j + 1)
    }
}

proof fn lemma_first_mime_entry_range(ct: Seq<char>, j: int)
    requires
        0 <= j <= MIME_TO_EXT_LEN,
    ensures
        j <= first_mime_entry(ct, j) <= MIME_TO_EXT_LEN,
    decreases MIME_TO_EXT_LEN - j,
{
    if j < MIME_TO_EXT_LEN && !eq_ignore_ascii_case(mime_to_ext(j).0, ct) {
        lemma_first_mime_entry_range(ct, j + 1);
    }
}

/// The media type of a `Content-Type` value: the text before the first `;`,
/// trimmed.
pub open spec fn spec_content_type_essence(mime: Seq<char>) -> Seq<char> {
    spec_trim(mime.take(first_index_of(mime, ';', 0)))
}

/// The extension for a MIME type (parameters after `;` ignored), or `.bin`.
pub open spec fn spec_extension_from_mime(mime: Seq<char>) -> Seq<char> {
    let k = first_mime_entry(spec_content_type_essence(mime), 0);
    if k < MIME_TO_EXT_LEN {
        mime_to_ext(k).1
    } else {
        ".bin"@
    }
}

/// Get file extension from MIME type.
pub fn extension_from_mime(mime: &str) -> (r: &'static str)
    ensures
        r@ == spec_extension_from_mime(mime@),
{
    let ct = trim(before_first(mime, ';'));
    let mut j: usize = 0;
    proof {
        lemma_first_mime_entry_range(ct@, 0);
    }
    while j < MIME_TO_EXT_LEN
        invariant
            0 <= j <= MIME_TO_EXT_LEN,
            ct@ == spec_content_type_essence(mime@),
            first_mime_entry(ct@, 0) == first_mime_entry(ct@, j as int),
        decreases MIME_TO_EXT_LEN - j,
    {
        let (m, ext) = mime_to_ext_entry(j);
        if str_eq_ignore_ascii_case(m, ct) {
            return ext;
        }
        j += 1;
    }
    ".bin"
}

// ── Content-Type or URL → extension ─────────────────────────────────────────

/// First entry at or after `i` whose dotted extension is `ext` ignoring ASCII
/// case, or the table's length.
pub open spec fn first_dotted_entry(ext: Seq<char>, i: int) -> int
    decreases EXTENSION_MAP_LEN - i,
{
    if i >= EXTENSION_MAP_LEN {
        EXTENSION_MAP_LEN as int
    } else if eq_ignore_ascii_case(extension_map(i).0, ext) {
        i
    } else {
        first_dotted_entry(ext, i + 1)
    }
}

proof fn lemma_first_dotted_entry_range(ext: Seq<char>, i: int)
    requires
        0 <= i <= EXTENSION_MAP_LEN,
    ensures
        i <= first_dotted_entry(ext, i) <= EXTENSION_MAP_LEN,
    decreases EXTENSION_MAP_LEN - i,
{
    if i < EXTENSION_MAP_LEN && !eq_ignore_ascii_case(extension_map(i).0, ext) {
        lemma_first_dotted_entry_range(ext, i + 1);
    }
}

/// The known extension at the end of a URL path (from its last `.`), or `.bin`.
pub open spec fn spec_extension_from_url_path(path: Seq<char>) -> Seq<char> {
    match last_index_of(path, '.', path.len() as int) {
        Some(dot) => {
            let k = first_dotted_entry(path.skip(dot), 0);
            if k < EXTENSION_MAP_LEN {
                extension_map(k).0
            } else {
                ".bin"@
            }
        },
        None => ".bin"@,
    }
}

/// The extension a URL path ends with, as spelled in the extension table.
pub fn extension_from_url_path(path: &str) -> (r: &'static str)
    ensures
        r@ == spec_extension_from_url_path(path@),
{
    match rfind_char(path, '.') {
        Some(dot) => {
            let ext = path.substring_char(dot, path.unicode_len());
            proof {
                assert(ext@ =~= path@.skip(dot as int));
            }
            let mut i: usize = 0;
            proof {
                lemma_first_dotted_entry_range(ext@, 0);
            }
            while i < EXTENSION_MAP_LEN
                invariant
                    0 <= i <= EXTENSION_MAP_LEN,
                    last_index_of(path@, '.', path@.len() as int) == Some(dot as int),
                    ext@ == path@.skip(dot as int),
                    first_dotted_entry(ext@, 0) == first_dotted_entry(ext@, i as int),
                decreases EXTENSION_MAP_LEN - i,
            {
                let (e, _mime) = extension_map_entry(i);
                if str_eq_ignore_ascii_case(e, ext) {
                    return e;
                }
                i += 1;
            }
            ".bin"
        },
        None => ".bin",
    }
}

/// The extension from a `Content-Type` value where it names a known type,
/// else from the path of the URL where it parses.
pub open spec fn spec_extension_from_content_type_or_url(
    content_type: Option<Seq<char>>,
    url: Seq<char>,
) -> Seq<char> {
    let from_ct = match content_type {
        Some(ct) => spec_extension_from_mime(ct),
        None => ".bin"@,
    };
    if from_ct != ".bin"@ {
        from_ct
    } else {
        match url_path_of(url) {
            Some(p) => spec_extension_from_url_path(p),
            None => ".bin"@,
        }
    }
}

/// Get file extension from Content-Type header or URL path.
pub fn extension_from_content_type_or_url(content_type: Option<&str>, url: &str) -> (r: &'static str)
    ensures
        r@ == spec_extension_from_content_type_or_url(
            match content_type {
                Some(c) => Some(c@),
                None => None,
            },
            url@,
        ),
{
    if let Some(ct) = content_type {
        let ext = extension_from_mime(ct);
        if !str_eq(ext, ".bin") {
            return ext;
        }
    }
    match parse_url_path(url) {
        Some(p) => extension_from_url_path(p.as_str()),
        None => ".bin",
    }
}

// ── Laws ────────────────────────────────────────────────────────────────────

proof fn lemma_first_ext_entry_fold(e1: Seq<char>, e2: Seq<char>, i: int)
    requires
        eq_ignore_ascii_case(e1, e2),
        0 <= i <= EXTENSION_MAP_LEN,
    ensures
        first_ext_entry(e1, i) == first_ext_entry(e2, i),
    decreases EXTENSION_MAP_LEN - i,
{
    if i < EXTENSION_MAP_LEN {
        let key = extension_map(i).0.skip(1);
        lemma_eq_ignore_case_equiv(key, e1, e2);
        lemma_eq_ignore_case_equiv(key, e2, e1);
        lemma_eq_ignore_case_equiv(e1, e2, key);
        lemma_first_ext_entry_fold(e1, e2, i + 1);
    }
}

proof fn lemma_first_mime_entry_fold(c1: Seq<char>, c2: Seq<char>, j: int)
    requires
        eq_ignore_ascii_case(c1, c2),
        0 <= j <= MIME_TO_EXT_LEN,
    ensures
        first_mime_entry(c1, j) == first_mime_entry(c2, j),
    decreases MIME_TO_EXT_LEN - j,
{
    if j < MIME_TO_EXT_LEN {
        let m = mime_to_ext(j).0;
        lemma_eq_ignore_case_equiv(m, c1, c2);
        lemma_eq_ignore_case_equiv(m, c2, c1);
        lemma_eq_ignore_case_equiv(c1, c2, m);
        lemma_first_mime_entry_fold(c1, c2, j + 1);
    }
}

/// The MIME type of a path depends on its extension alone, and only up to
/// ASCII case: extensions equal ignoring ASCII case give the same type.
pub proof fn lemma_mime_ignores_extension_case(e1: Seq<char>, e2: Seq<char>)
    requires
        eq_ignore_ascii_case(e1, e2),
    ensures
        spec_mime_from_extension(Some(e1)) == spec_mime_from_extension(Some(e2)),
{
    lemma_first_ext_entry_fold(e1, e2, 0);
}

/// The extension for a MIME type depends only on its media type (the text
/// before `;`, trimmed), and only up to ASCII case.
pub proof fn lemma_extension_from_mime_essence(m1: Seq<char>, m2: Seq<char>)
    ensures
        spec_extension_from_mime(m1) == spec_extension_from_mime(spec_content_type_essence(m1)),
        eq_ignore_ascii_case(m1, m2) ==> spec_extension_from_mime(m1) == spec_extension_from_mime(m2),
{
    lemma_cut_trim_idempotent(m1);
    if eq_ignore_ascii_case(m1, m2) {
        lemma_fold_cut_trim(m1, m2);
        lemma_first_mime_entry_fold(spec_content_type_essence(m1), spec_content_type_essence(m2), 0);
    }
}


proof fn lemma_first_ext_entry_is(e: Seq<char>, k: int, i: int)
    requires
        0 <= i <= k < EXTENSION_MAP_LEN,
        ext_entry_matches(k, e),
        forall|m: int| i <= m < k ==> !#[trigger] ext_entry_matches(m, e),
    ensures
        first_ext_entry(e, i) == k,
    decreases k - i,
{
    if i < k {
        lemma_first_ext_entry_is(e, k, i + 1);
    }
}

proof fn lemma_first_mime_entry_is(c: Seq<char>, k: int, i: int)
    requires
        0 <= i <= k < MIME_TO_EXT_LEN,
        eq_ignore_ascii_case(mime_to_ext(k).0, c),
        forall|m: int| i <= m < k ==> !#[trigger] eq_ignore_ascii_case(mime_to_ext(m).0, c),
    ensures
        first_mime_entry(c, i) == k,
    decreases k - i,
{
    if i < k {
        lemma_first_mime_entry_is(c, k, i + 1);
    }
}


proof fn lemma_round_trip_0()
    ensures
        spec_mime_from_extension(Some(mime_to_ext(0).1.skip(1))) == mime_to_ext(0).0,
        spec_extension_from_mime(mime_to_ext(0).0) == mime_to_ext(0).1,
{
    reveal_strlit(".pdf");
    reveal_strlit(".doc");
    reveal_strlit(".docx");
    reveal_strlit(".xls");
    reveal_strlit(".xlsx");
    reveal_strlit(".ppt");
    reveal_strlit(".pptx");
    reveal_strlit(".txt");
    reveal_strlit(".csv");
    reveal_strlit(".zip");
    reveal_strlit(".tar");
    reveal_strlit(".gz");
    reveal_strlit(".mp3");
    reveal_strlit(".ogg");
    reveal_strlit(".wav");
    reveal_strlit(".mp4");
    reveal_strlit(".mov");
    reveal_strlit(".webm");
    reveal_strlit(".mkv");
    reveal_strlit(".avi");
    reveal_strlit(".png");
    reveal_strlit(".jpg");
    reveal_strlit("image/jpeg");
    let e = mime_to_ext(0).1.skip(1);
    lemma_eq_ignore_case_equiv(e, e, e);
    assert forall|m: int| 0 <= m < 21 implies !#[trigger] ext_entry_matches(m, e) by {
        let x = extension_map(m).0.skip(1);
        if x.len() == e.len() {
            assert(ascii_lower(x[0]) != ascii_lower(e[0]) || ascii_lower(x[1]) != ascii_lower(e[1]) || ascii_lower(x[2]) != ascii_lower(e[2]));
        }
    }
    lemma_first_ext_entry_is(e, 21, 0);
    let c = mime_to_ext(0).0;
    assert forall|i: int| 0 <= i < c.len() implies #[trigger] c[i] != ';' && !is_unicode_whitespace(c[i]) by {}
    lemma_plain_cut_trim(c);
    lemma_eq_ignore_case_equiv(c, c, c);
    lemma_first_mime_entry_is(c, 0, 0);
}

proof fn lemma_round_trip_1()
    ensures
        spec_mime_from_extension(Some(mime_to_ext(1).1.skip(1))) == mime_to_ext(1).0,
        spec_extension_from_mime(mime_to_ext(1).0) == mime_to_ext(1).1,
{
    reveal_strlit(".pdf");
    reveal_strlit(".doc");
    reveal_strlit(".docx");
    reveal_strlit(".xls");
    reveal_strlit(".xlsx");
    reveal_strlit(".ppt");
    reveal_strlit(".pptx");
    reveal_strlit(".txt");
    reveal_strlit(".csv");
    reveal_strlit(".zip");
    reveal_strlit(".tar");
    reveal_strlit(".gz");
    reveal_strlit(".mp3");
    reveal_strlit(".ogg");
    reveal_strlit(".wav");
    reveal_strlit(".mp4");
    reveal_strlit(".mov");
    reveal_strlit(".webm");
    reveal_strlit(".mkv");
    reveal_strlit(".avi");
    reveal_strlit(".png");
    reveal_strlit("image/jpeg");
    reveal_strlit("image/png");
    let e = mime_to_ext(1).1.skip(1);
    lemma_eq_ignore_case_equiv(e, e, e);
    assert forall|m: int| 0 <= m < 20 implies !#[trigger] ext_entry_matches(m, e) by {
        let x = extension_map(m).0.skip(1);
        if x.len() == e.len() {
            assert(ascii_lower(x[0]) != ascii_lower(e[0]) || ascii_lower(x[1]) != ascii_lower(e[1]) || ascii_lower(x[2]) != ascii_lower(e[2]));
        }
    }
    lemma_first_ext_entry_is(e, 20, 0);
    let c = mime_to_ext(1).0;
    assert forall|i: int| 0 <= i < c.len() implies #[trigger] c[i] != ';' && !is_unicode_whitespace(c[i]) by {}
    lemma_plain_cut_trim(c);
    lemma_eq_ignore_case_equiv(c, c, c);
    assert forall|m: int| 0 <= m < 1 implies !#[trigger] eq_ignore_ascii_case(mime_to_ext(m).0, c) by {
        let x = mime_to_ext(m).0;
        if x.len() == c.len() {
            assert(ascii_lower(x[0]) != ascii_lower(c[0]) || ascii_lower(x[1]) != ascii_lower(c[1]) || ascii_lower(x[2]) != ascii_lower(c[2]) || ascii_lower(x[3]) != ascii_lower(c[3]) || ascii_lower(x[4]) != ascii_lower(c[4]) || ascii_lower(x[5]) != ascii_lower(c[5]) || ascii_lower(x[6]) != ascii_lower(c[6]) || ascii_lower(x[7]) != ascii_lower(c[7]) || ascii_lower(x[8]) != ascii_lower(c[8]));
        }
    }
    lemma_first_mime_entry_is(c, 1, 0);
}

proof fn lemma_round_trip_2()
    ensures
        spec_mime_from_extension(Some(mime_to_ext(2).1.skip(1))) == mime_to_ext(2).0,
        spec_extension_from_mime(mime_to_ext(2).0) == mime_to_ext(2).1,
{
    reveal_strlit(".pdf");
    reveal_strlit(".doc");
    reveal_strlit(".docx");
    reveal_strlit(".xls");
    reveal_strlit(".xlsx");
    reveal_strlit(".ppt");
    reveal_strlit(".pptx");
    reveal_strlit(".txt");
    reveal_strlit(".csv");
    reveal_strlit(".zip");
    reveal_strlit(".tar");
    reveal_strlit(".gz");
    reveal_strlit(".mp3");
    reveal_strlit(".ogg");
    reveal_strlit(".wav");
    reveal_strlit(".mp4");
    reveal_strlit(".mov");
    reveal_strlit(".webm");
    reveal_strlit(".mkv");
    reveal_strlit(".avi");
    reveal_strlit(".png");
    reveal_strlit(".jpg");
    reveal_strlit(".jpeg");
    reveal_strlit(".gif");
    reveal_strlit("image/jpeg");
    reveal_strlit("image/png");
    reveal_strlit("image/gif");
    let e = mime_to_ext(2).1.skip(1);
    lemma_eq_ignore_case_equiv(e, e, e);
    assert forall|m: int| 0 <= m < 23 implies !#[trigger] ext_entry_matches(m, e) by {
        let x = extension_map(m).0.skip(1);
        if x.len() == e.len() {
            assert(ascii_lower(x[0]) != ascii_lower(e[0]) || ascii_lower(x[1]) != ascii_lower(e[1]) || ascii_lower(x[2]) != ascii_lower(e[2]));
        }
    }
    lemma_first_ext_entry_is(e, 23, 0);
    let c = mime_to_ext(2).0;
    assert forall|i: int| 0 <= i < c.len() implies #[trigger] c[i] != ';' && !is_unicode_whitespace(c[i]) by {}
    lemma_plain_cut_trim(c);
    lemma_eq_ignore_case_equiv(c, c, c);
    assert forall|m: int| 0 <= m < 2 implies !#[trigger] eq_ignore_ascii_case(mime_to_ext(m).0, c) by {
        let x = mime_to_ext(m).0;
        if x.len() == c.len() {
            assert(ascii_lower(x[0]) != ascii_lower(c[0]) || ascii_lower(x[1]) != ascii_lower(c[1]) || ascii_lower(x[2]) != ascii_lower(c[2]) || ascii_lower(x[3]) != ascii_lower(c[3]) || ascii_lower(x[4]) != ascii_lower(c[4]) || ascii_lower(x[5]) != ascii_lower(c[5]) || ascii_lower(x[6]) != ascii_lower(c[6]) || ascii_lower(x[7]) != ascii_lower(c[7]) || ascii_lower(x[8]) != ascii_lower(c[8]));
        }
    }
    lemma_first_mime_entry_is(c, 2, 0);
}

proof fn lemma_round_trip_3()
    ensures
        spec_mime_from_extension(Some(mime_to_ext(3).1.skip(1))) == mime_to_ext(3).0,
        spec_extension_from_mime(mime_to_ext(3).0) == mime_to_ext(3).1,
{
    reveal_strlit(".pdf");
    reveal_strlit(".doc");
    reveal_strlit(".docx");
    reveal_strlit(".xls");
    reveal_strlit(".xlsx");
    reveal_strlit(".ppt");
    reveal_strlit(".pptx");
    reveal_strlit(".txt");
    reveal_strlit(".csv");
    reveal_strlit(".zip");
    reveal_strlit(".tar");
    reveal_strlit(".gz");
    reveal_strlit(".mp3");
    reveal_strlit(".ogg");
    reveal_strlit(".wav");
    reveal_strlit(".mp4");
    reveal_strlit(".mov");
    reveal_strlit(".webm");
    reveal_strlit(".mkv");
    reveal_strlit(".avi");
    reveal_strlit(".png");
    reveal_strlit(".jpg");
    reveal_strlit(".jpeg");
    reveal_strlit(".gif");
    reveal_strlit(".webp");
    reveal_strlit("image/jpeg");
    reveal_strlit("image/png");
    reveal_strlit("image/gif");
    reveal_strlit("image/webp");
    let e = mime_to_ext(3).1.skip(1);
    lemma_eq_ignore_case_equiv(e, e, e);
    assert forall|m: int| 0 <= m < 24 implies !#[trigger] ext_entry_matches(m, e) by {
        let x = extension_map(m).0.skip(1);
        if x.len() == e.len() {
            assert(ascii_lower(x[0]) != ascii_lower(e[0]) || ascii_lower(x[1]) != ascii_lower(e[1]) || ascii_lower(x[2]) != ascii_lower(e[2]) || ascii_lower(x[3]) != ascii_lower(e[3]));
        }
    }
    lemma_first_ext_entry_is(e, 24, 0);
    let c = mime_to_ext(3).0;
    assert forall|i: int| 0 <= i < c.len() implies #[trigger] c[i] != ';' && !is_unicode_whitespace(c[i]) by {}
    lemma_plain_cut_trim(c);
    lemma_eq_ignore_case_equiv(c, c, c);
    assert forall|m: int| 0 <= m < 3 implies !#[trigger] eq_ignore_ascii_case(mime_to_ext(m).0, c) by {
        let x = mime_to_ext(m).0;
        if x.len() == c.len() {
            assert(ascii_lower(x[0]) != ascii_lower(c[0]) || ascii_lower(x[1]) != ascii_lower(c[1]) || ascii_lower(x[2]) != ascii_lower(c[2]) || ascii_lower(x[3]) != ascii_lower(c[3]) || ascii_lower(x[4]) != ascii_lower(c[4]) || ascii_lower(x[5]) != ascii_lower(c[5]) || ascii_lower(x[6]) != ascii_lower(c[6]) || ascii_lower(x[7]) != ascii_lower(c[7]) || ascii_lower(x[8]) != ascii_lower(c[8]) || ascii_lower(x[9]) != ascii_lower(c[9]));
        }
    }
    lemma_first_mime_entry_is(c, 3, 0);
}

proof fn lemma_round_trip_4()
    ensures
        spec_mime_from_extension(Some(mime_to_ext(4).1.skip(1))) == mime_to_ext(4).0,
        spec_extension_from_mime(mime_to_ext(4).0) == mime_to_ext(4).1,
{
    reveal_strlit(".pdf");
    reveal_strlit(".doc");
    reveal_strlit(".docx");
    reveal_strlit(".xls");
    reveal_strlit(".xlsx");
    reveal_strlit(".ppt");
    reveal_strlit(".pptx");
    reveal_strlit(".txt");
    reveal_strlit(".csv");
    reveal_strlit(".zip");
    reveal_strlit(".tar");
    reveal_strlit(".gz");
    reveal_strlit(".mp3");
    reveal_strlit(".ogg");
    reveal_strlit(".wav");
    reveal_strlit(".mp4");
    reveal_strlit(".mov");
    reveal_strlit(".webm");
    reveal_strlit(".mkv");
    reveal_strlit(".avi");
    reveal_strlit(".png");
    reveal_strlit(".jpg");
    reveal_strlit(".jpeg");
    reveal_strlit(".gif");
    reveal_strlit(".webp");
    reveal_strlit(".bmp");
    reveal_strlit("image/jpeg");
    reveal_strlit("image/png");
    reveal_strlit("image/gif");
    reveal_strlit("image/webp");
    reveal_strlit("image/bmp");
    let e = mime_to_ext(4).1.skip(1);
    lemma_eq_ignore_case_equiv(e, e, e);
    assert forall|m: int| 0 <= m < 25 implies !#[trigger] ext_entry_matches(m, e) by {
        let x = extension_map(m).0.skip(1);
        if x.len() == e.len() {
            assert(ascii_lower(x[0]) != ascii_lower(e[0]) || ascii_lower(x[1]) != ascii_lower(e[1]) || ascii_lower(x[2]) != ascii_lower(e[2]));
        }
    }
    lemma_first_ext_entry_is(e, 25, 0);
    let c = mime_to_ext(4).0;
    assert forall|i: int| 0 <= i < c.len() implies #[trigger] c[i] != ';' && !is_unicode_whitespace(c[i]) by {}
    lemma_plain_cut_trim(c);
    lemma_eq_ignore_case_equiv(c, c, c);
    assert forall|m: int| 0 <= m < 4 implies !#[trigger] eq_ignore_ascii_case(mime_to_ext(m).0, c) by {
        let x = mime_to_ext(m).0;
        if x.len() == c.len() {
            assert(ascii_lower(x[0]) != ascii_lower(c[0]) || ascii_lower(x[1]) != ascii_lower(c[1]) || ascii_lower(x[2]) != ascii_lower(c[2]) || ascii_lower(x[3]) != ascii_lower(c[3]) || ascii_lower(x[4]) != ascii_lower(c[4]) || ascii_lower(x[5]) != ascii_lower(c[5]) || ascii_lower(x[6]) != ascii_lower(c[6]) || ascii_lower(x[7]) != ascii_lower(c[7]) || ascii_lower(x[8]) != ascii_lower(c[8]));
        }
    }
    lemma_first_mime_entry_is(c, 4, 0);
}

proof fn lemma_round_trip_5()
    ensures
        spec_mime_from_extension(Some(mime_to_ext(5).1.skip(1))) == mime_to_ext(5).0,
        spec_extension_from_mime(mime_to_ext(5).0) == mime_to_ext(5).1,
{
    reveal_strlit(".pdf");
    reveal_strlit(".doc");
    reveal_strlit(".docx");
    reveal_strlit(".xls");
    reveal_strlit(".xlsx");
    reveal_strlit(".ppt");
    reveal_strlit(".pptx");
    reveal_strlit(".txt");
    reveal_strlit(".csv");
    reveal_strlit(".zip");
    reveal_strlit(".tar");
    reveal_strlit(".gz");
    reveal_strlit(".mp3");
    reveal_strlit(".ogg");
    reveal_strlit(".wav");
    reveal_strlit(".mp4");
    reveal_strlit("image/jpeg");
    reveal_strlit("image/png");
    reveal_strlit("image/gif");
    reveal_strlit("image/webp");
    reveal_strlit("image/bmp");
    reveal_strlit("video/mp4");
    let e = mime_to_ext(5).1.skip(1);
    lemma_eq_ignore_case_equiv(e, e, e);
    assert forall|m: int| 0 <= m < 15 implies !#[trigger] ext_entry_matches(m, e) by {
        let x = extension_map(m).0.skip(1);
        if x.len() == e.len() {
            assert(ascii_lower(x[0]) != ascii_lower(e[0]) || ascii_lower(x[1]) != ascii_lower(e[1]) || ascii_lower(x[2]) != ascii_lower(e[2]));
        }
    }
    lemma_first_ext_entry_is(e, 15, 0);
    let c = mime_to_ext(5).0;
    assert forall|i: int| 0 <= i < c.len() implies #[trigger] c[i] != ';' && !is_unicode_whitespace(c[i]) by {}
    lemma_plain_cut_trim(c);
    lemma_eq_ignore_case_equiv(c, c, c);
    assert forall|m: int| 0 <= m < 5 implies !#[trigger] eq_ignore_ascii_case(mime_to_ext(m).0, c) by {
        let x = mime_to_ext(m).0;
        if x.len() == c.len() {
            assert(ascii_lower(x[0]) != ascii_lower(c[0]) || ascii_lower(x[1]) != ascii_lower(c[1]) || ascii_lower(x[2]) != ascii_lower(c[2]) || ascii_lower(x[3]) != ascii_lower(c[3]) || ascii_lower(x[4]) != ascii_lower(c[4]) || ascii_lower(x[5]) != ascii_lower(c[5]) || ascii_lower(x[6]) != ascii_lower(c[6]) || ascii_lower(x[7]) != ascii_lower(c[7]) || ascii_lower(x[8]) != ascii_lower(c[8]));
        }
    }
    lemma_first_mime_entry_is(c, 5, 0);
}

proof fn lemma_round_trip_6()
    ensures
        spec_mime_from_extension(Some(mime_to_ext(6).1.skip(1))) == mime_to_ext(6).0,
        spec_extension_from_mime(mime_to_ext(6).0) == mime_to_ext(6).1,
{
    reveal_strlit(".pdf");
    reveal_strlit(".doc");
    reveal_strlit(".docx");
    reveal_strlit(".xls");
    reveal_strlit(".xlsx");
    reveal_strlit(".ppt");
    reveal_strlit(".pptx");
    reveal_strlit(".txt");
    reveal_strlit(".csv");
    reveal_strlit(".zip");
    reveal_strlit(".tar");
    reveal_strlit(".gz");
    reveal_strlit(".mp3");
    reveal_strlit(".ogg");
    reveal_strlit(".wav");
    reveal_strlit(".mp4");
    reveal_strlit(".mov");
    reveal_strlit("image/jpeg");
    reveal_strlit("image/png");
    reveal_strlit("image/gif");
    reveal_strlit("image/webp");
    reveal_strlit("image/bmp");
    reveal_strlit("video/mp4");
    reveal_strlit("video/quicktime");
    let e = mime_to_ext(6).1.skip(1);
    lemma_eq_ignore_case_equiv(e, e, e);
    assert forall|m: int| 0 <= m < 16 implies !#[trigger] ext_entry_matches(m, e) by {
        let x = extension_map(m).0.skip(1);
        if x.len() == e.len() {
            assert(ascii_lower(x[0]) != ascii_lower(e[0]) || ascii_lower(x[1]) != ascii_lower(e[1]) || ascii_lower(x[2]) != ascii_lower(e[2]));
        }
    }
    lemma_first_ext_entry_is(e, 16, 0);
    let c = mime_to_ext(6).0;
    assert forall|i: int| 0 <= i < c.len() implies #[trigger] c[i] != ';' && !is_unicode_whitespace(c[i]) by {}
    lemma_plain_cut_trim(c);
    lemma_eq_ignore_case_equiv(c, c, c);
    assert forall|m: int| 0 <= m < 6 implies !#[trigger] eq_ignore_ascii_case(mime_to_ext(m).0, c) by {
        let x = mime_to_ext(m).0;
        if x.len() == c.len() {
            assert(ascii_lower(x[0]) != ascii_lower(c[0]) || ascii_lower(x[1]) != ascii_lower(c[1]) || ascii_lower(x[2]) != ascii_lower(c[2]) || ascii_lower(x[3]) != ascii_lower(c[3]) || ascii_lower(x[4]) != ascii_lower(c[4]) || ascii_lower(x[5]) != ascii_lower(c[5]) || ascii_lower(x[6]) != ascii_lower(c[6]) || ascii_lower(x[7]) != ascii_lower(c[7]) || ascii_lower(x[8]) != ascii_lower(c[8]) || ascii_lower(x[9]) != ascii_lower(c[9]) || ascii_lower(x[10]) != ascii_lower(c[10]) || ascii_lower(x[11]) != ascii_lower(c[11]) || ascii_lower(x[12]) != ascii_lower(c[12]) || ascii_lower(x[13]) != ascii_lower(c[13]) || ascii_lower(x[14]) != ascii_lower(c[14]));
        }
    }
    lemma_first_mime_entry_is(c, 6, 0);
}

proof fn lemma_round_trip_7()
    ensures
        spec_mime_from_extension(Some(mime_to_ext(7).1.skip(1))) == mime_to_ext(7).0,
        spec_extension_from_mime(mime_to_ext(7).0) == mime_to_ext(7).1,
{
    reveal_strlit(".pdf");
    reveal_strlit(".doc");
    reveal_strlit(".docx");
    reveal_strlit(".xls");
    reveal_strlit(".xlsx");
    reveal_strlit(".ppt");
    reveal_strlit(".pptx");
    reveal_strlit(".txt");
    reveal_strlit(".csv");
    reveal_strlit(".zip");
    reveal_strlit(".tar");
    reveal_strlit(".gz");
    reveal_strlit(".mp3");
    reveal_strlit(".ogg");
    reveal_strlit(".wav");
    reveal_strlit(".mp4");
    reveal_strlit(".mov");
    reveal_strlit(".webm");
    reveal_strlit("image/jpeg");
    reveal_strlit("image/png");
    reveal_strlit("image/gif");
    reveal_strlit("image/webp");
    reveal_strlit("image/bmp");
    reveal_strlit("video/mp4");
    reveal_strlit("video/quicktime");
    reveal_strlit("video/webm");
    let e = mime_to_ext(7).1.skip(1);
    lemma_eq_ignore_case_equiv(e, e, e);
    assert forall|m: int| 0 <= m < 17 implies !#[trigger] ext_entry_matches(m, e) by {
        let x = extension_map(m).0.skip(1);
        if x.len() == e.len() {
            assert(ascii_lower(x[0]) != ascii_lower(e[0]) || ascii_lower(x[1]) != ascii_lower(e[1]) || ascii_lower(x[2]) != ascii_lower(e[2]) || ascii_lower(x[3]) != ascii_lower(e[3]));
        }
    }
    lemma_first_ext_entry_is(e, 17, 0);
    let c = mime_to_ext(7).0;
    assert forall|i: int| 0 <= i < c.len() implies #[trigger] c[i] != ';' && !is_unicode_whitespace(c[i]) by {}
    lemma_plain_cut_trim(c);
    lemma_eq_ignore_case_equiv(c, c, c);
    assert forall|m: int| 0 <= m < 7 implies !#[trigger] eq_ignore_ascii_case(mime_to_ext(m).0, c) by {
        let x = mime_to_ext(m).0;
        if x.len() == c.len() {
            assert(ascii_lower(x[0]) != ascii_lower(c[0]) || ascii_lower(x[1]) != ascii_lower(c[1]) || ascii_lower(x[2]) != ascii_lower(c[2]) || ascii_lower(x[3]) != ascii_lower(c[3]) || ascii_lower(x[4]) != ascii_lower(c[4]) || ascii_lower(x[5]) != ascii_lower(c[5]) || ascii_lower(x[6]) != ascii_lower(c[6]) || ascii_lower(x[7]) != ascii_lower(c[7]) || ascii_lower(x[8]) != ascii_lower(c[8]) || ascii_lower(x[9]) != ascii_lower(c[9]));
        }
    }
    lemma_first_mime_entry_is(c, 7, 0);
}

proof fn lemma_round_trip_8()
    ensures
        spec_mime_from_extension(Some(mime_to_ext(8).1.skip(1))) == mime_to_ext(8).0,
        spec_extension_from_mime(mime_to_ext(8).0) == mime_to_ext(8).1,
{
    reveal_strlit(".pdf");
    reveal_strlit(".doc");
    reveal_strlit(".docx");
    reveal_strlit(".xls");
    reveal_strlit(".xlsx");
    reveal_strlit(".ppt");
    reveal_strlit(".pptx");
    reveal_strlit(".txt");
    reveal_strlit(".csv");
    reveal_strlit(".zip");
    reveal_strlit(".tar");
    reveal_strlit(".gz");
    reveal_strlit(".mp3");
    reveal_strlit("image/jpeg");
    reveal_strlit("image/png");
    reveal_strlit("image/gif");
    reveal_strlit("image/webp");
    reveal_strlit("image/bmp");
    reveal_strlit("video/mp4");
    reveal_strlit("video/quicktime");
    reveal_strlit("video/webm");
    reveal_strlit("audio/mpeg");
    let e = mime_to_ext(8).1.skip(1);
    lemma_eq_ignore_case_equiv(e, e, e);
    assert forall|m: int| 0 <= m < 12 implies !#[trigger] ext_entry_matches(m, e) by {
        let x = extension_map(m).0.skip(1);
        if x.len() == e.len() {
            assert(ascii_lower(x[0]) != ascii_lower(e[0]) || ascii_lower(x[1]) != ascii_lower(e[1]) || ascii_lower(x[2]) != ascii_lower(e[2]));
        }
    }
    lemma_first_ext_entry_is(e, 12, 0);
    let c = mime_to_ext(8).0;
    assert forall|i: int| 0 <= i < c.len() implies #[trigger] c[i] != ';' && !is_unicode_whitespace(c[i]) by {}
    lemma_plain_cut_trim(c);
    lemma_eq_ignore_case_equiv(c, c, c);
    assert forall|m: int| 0 <= m < 8 implies !#[trigger] eq_ignore_ascii_case(mime_to_ext(m).0, c) by {
        let x = mime_to_ext(m).0;
        if x.len() == c.len() {
            assert(ascii_lower(x[0]) != ascii_lower(c[0]) || ascii_lower(x[1]) != ascii_lower(c[1]) || ascii_lower(x[2]) != ascii_lower(c[2]) || ascii_lower(x[3]) != ascii_lower(c[3]) || ascii_lower(x[4]) != ascii_lower(c[4]) || ascii_lower(x[5]) != ascii_lower(c[5]) || ascii_lower(x[6]) != ascii_lower(c[6]) || ascii_lower(x[7]) != ascii_lower(c[7]) || ascii_lower(x[8]) != ascii_lower(c[8]) || ascii_lower(x[9]) != ascii_lower(c[9]));
        }
    }
    lemma_first_mime_entry_is(c, 8, 0);
}

proof fn lemma_round_trip_9()
    ensures
        spec_mime_from_extension(Some(mime_to_ext(9).1.skip(1))) == mime_to_ext(9).0,
        spec_extension_from_mime(mime_to_ext(9).0) == mime_to_ext(9).1,
{
    reveal_strlit(".pdf");
    reveal_strlit(".doc");
    reveal_strlit(".docx");
    reveal_strlit(".xls");
    reveal_strlit(".xlsx");
    reveal_strlit(".ppt");
    reveal_strlit(".pptx");
    reveal_strlit(".txt");
    reveal_strlit(".csv");
    reveal_strlit(".zip");
    reveal_strlit(".tar");
    reveal_strlit(".gz");
    reveal_strlit(".mp3");
    reveal_strlit(".ogg");
    reveal_strlit("image/jpeg");
    reveal_strlit("image/png");
    reveal_strlit("image/gif");
    reveal_strlit("image/webp");
    reveal_strlit("image/bmp");
    reveal_strlit("video/mp4");
    reveal_strlit("video/quicktime");
    reveal_strlit("video/webm");
    reveal_strlit("audio/mpeg");
    reveal_strlit("audio/ogg");
    let e = mime_to_ext(9).1.skip(1);
    lemma_eq_ignore_case_equiv(e, e, e);
    assert forall|m: int| 0 <= m < 13 implies !#[trigger] ext_entry_matches(m, e) by {
        let x = extension_map(m).0.skip(1);
        if x.len() == e.len() {
            assert(ascii_lower(x[0]) != ascii_lower(e[0]) || ascii_lower(x[1]) != ascii_lower(e[1]) || ascii_lower(x[2]) != ascii_lower(e[2]));
        }
    }
    lemma_first_ext_entry_is(e, 13, 0);
    let c = mime_to_ext(9).0;
    assert forall|i: int| 0 <= i < c.len() implies #[trigger] c[i] != ';' && !is_unicode_whitespace(c[i]) by {}
    lemma_plain_cut_trim(c);
    lemma_eq_ignore_case_equiv(c, c, c);
    assert forall|m: int| 0 <= m < 9 implies !#[trigger] eq_ignore_ascii_case(mime_to_ext(m).0, c) by {
        let x = mime_to_ext(m).0;
        if x.len() == c.len() {
            assert(ascii_lower(x[0]) != ascii_lower(c[0]) || ascii_lower(x[1]) != ascii_lower(c[1]) || ascii_lower(x[2]) != ascii_lower(c[2]) || ascii_lower(x[3]) != ascii_lower(c[3]) || ascii_lower(x[4]) != ascii_lower(c[4]) || ascii_lower(x[5]) != ascii_lower(c[5]) || ascii_lower(x[6]) != ascii_lower(c[6]) || ascii_lower(x[7]) != ascii_lower(c[7]) || ascii_lower(x[8]) != ascii_lower(c[8]));
        }
    }
    lemma_first_mime_entry_is(c, 9, 0);
}

proof fn lemma_round_trip_10()
    ensures
        spec_mime_from_extension(Some(mime_to_ext(10).1.skip(1))) == mime_to_ext(10).0,
        spec_extension_from_mime(mime_to_ext(10).0) == mime_to_ext(10).1,
{
    reveal_strlit(".pdf");
    reveal_strlit(".doc");
    reveal_strlit(".docx");
    reveal_strlit(".xls");
    reveal_strlit(".xlsx");
    reveal_strlit(".ppt");
    reveal_strlit(".pptx");
    reveal_strlit(".txt");
    reveal_strlit(".csv");
    reveal_strlit(".zip");
    reveal_strlit(".tar");
    reveal_strlit(".gz");
    reveal_strlit(".mp3");
    reveal_strlit(".ogg");
    reveal_strlit(".wav");
    reveal_strlit("image/jpeg");
    reveal_strlit("image/png");
    reveal_strlit("image/gif");
    reveal_strlit("image/webp");
    reveal_strlit("image/bmp");
    reveal_strlit("video/mp4");
    reveal_strlit("video/quicktime");
    reveal_strlit("video/webm");
    reveal_strlit("audio/mpeg");
    reveal_strlit("audio/ogg");
    reveal_strlit("audio/wav");
    let e = mime_to_ext(10).1.skip(1);
    lemma_eq_ignore_case_equiv(e, e, e);
    assert forall|m: int| 0 <= m < 14 implies !#[trigger] ext_entry_matches(m, e) by {
        let x = extension_map(m).0.skip(1);
        if x.len() == e.len() {
            assert(ascii_lower(x[0]) != ascii_lower(e[0]) || ascii_lower(x[1]) != ascii_lower(e[1]) || ascii_lower(x[2]) != ascii_lower(e[2]));
        }
    }
    lemma_first_ext_entry_is(e, 14, 0);
    let c = mime_to_ext(10).0;
    assert forall|i: int| 0 <= i < c.len() implies #[trigger] c[i] != ';' && !is_unicode_whitespace(c[i]) by {}
    lemma_plain_cut_trim(c);
    lemma_eq_ignore_case_equiv(c, c, c);
    assert forall|m: int| 0 <= m < 10 implies !#[trigger] eq_ignore_ascii_case(mime_to_ext(m).0, c) by {
        let x = mime_to_ext(m).0;
        if x.len() == c.len() {
            assert(ascii_lower(x[0]) != ascii_lower(c[0]) || ascii_lower(x[1]) != ascii_lower(c[1]) || ascii_lower(x[2]) != ascii_lower(c[2]) || ascii_lower(x[3]) != ascii_lower(c[3]) || ascii_lower(x[4]) != ascii_lower(c[4]) || ascii_lower(x[5]) != ascii_lower(c[5]) || ascii_lower(x[6]) != ascii_lower(c[6]) || ascii_lower(x[7]) != ascii_lower(c[7]) || ascii_lower(x[8]) != ascii_lower(c[8]));
        }
    }
    lemma_first_mime_entry_is(c, 10, 0);
}

proof fn lemma_round_trip_11()
    ensures
        spec_mime_from_extension(Some(mime_to_ext(11).1.skip(1))) == mime_to_ext(11).0,
        spec_extension_from_mime(mime_to_ext(11).0) == mime_to_ext(11).1,
{
    reveal_strlit(".pdf");
    reveal_strlit("image/jpeg");
    reveal_strlit("image/png");
    reveal_strlit("image/gif");
    reveal_strlit("image/webp");
    reveal_strlit("image/bmp");
    reveal_strlit("video/mp4");
    reveal_strlit("video/quicktime");
    reveal_strlit("video/webm");
    reveal_strlit("audio/mpeg");
    reveal_strlit("audio/ogg");
    reveal_strlit("audio/wav");
    reveal_strlit("application/pdf");
    let e = mime_to_ext(11).1.skip(1);
    lemma_eq_ignore_case_equiv(e, e, e);
    assert forall|m: int| 0 <= m < 0 implies !#[trigger] ext_entry_matches(m, e) by {
        let x = extension_map(m).0.skip(1);
        if x.len() == e.len() {
            assert(ascii_lower(x[0]) != ascii_lower(e[0]) || ascii_lower(x[1]) != ascii_lower(e[1]) || ascii_lower(x[2]) != ascii_lower(e[2]));
        }
    }
    lemma_first_ext_entry_is(e, 0, 0);
    let c = mime_to_ext(11).0;
    assert forall|i: int| 0 <= i < c.len() implies #[trigger] c[i] != ';' && !is_unicode_whitespace(c[i]) by {}
    lemma_plain_cut_trim(c);
    lemma_eq_ignore_case_equiv(c, c, c);
    assert forall|m: int| 0 <= m < 11 implies !#[trigger] eq_ignore_ascii_case(mime_to_ext(m).0, c) by {
        let x = mime_to_ext(m).0;
        if x.len() == c.len() {
            assert(ascii_lower(x[0]) != ascii_lower(c[0]) || ascii_lower(x[1]) != ascii_lower(c[1]) || ascii_lower(x[2]) != ascii_lower(c[2]) || ascii_lower(x[3]) != ascii_lower(c[3]) || ascii_lower(x[4]) != ascii_lower(c[4]) || ascii_lower(x[5]) != ascii_lower(c[5]) || ascii_lower(x[6]) != ascii_lower(c[6]) || ascii_lower(x[7]) != ascii_lower(c[7]) || ascii_lower(x[8]) != ascii_lower(c[8]) || ascii_lower(x[9]) != ascii_lower(c[9]) || ascii_lower(x[10]) != ascii_lower(c[10]) || ascii_lower(x[11]) != ascii_lower(c[11]) || ascii_lower(x[12]) != ascii_lower(c[12]) || ascii_lower(x[13]) != ascii_lower(c[13]) || ascii_lower(x[14]) != ascii_lower(c[14]));
        }
    }
    lemma_first_mime_entry_is(c, 11, 0);
}

proof fn lemma_round_trip_12()
    ensures
        spec_mime_from_extension(Some(mime_to_ext(12).1.skip(1))) == mime_to_ext(12).0,
        spec_extension_from_mime(mime_to_ext(12).0) == mime_to_ext(12).1,
{
    reveal_strlit(".pdf");
    reveal_strlit(".doc");
    reveal_strlit(".docx");
    reveal_strlit(".xls");
    reveal_strlit(".xlsx");
    reveal_strlit(".ppt");
    reveal_strlit(".pptx");
    reveal_strlit(".txt");
    reveal_strlit(".csv");
    reveal_strlit(".zip");
    reveal_strlit("image/jpeg");
    reveal_strlit("image/png");
    reveal_strlit("image/gif");
    reveal_strlit("image/webp");
    reveal_strlit("image/bmp");
    reveal_strlit("video/mp4");
    reveal_strlit("video/quicktime");
    reveal_strlit("video/webm");
    reveal_strlit("audio/mpeg");
    reveal_strlit("audio/ogg");
    reveal_strlit("audio/wav");
    reveal_strlit("application/pdf");
    reveal_strlit("application/zip");
    let e = mime_to_ext(12).1.skip(1);
    lemma_eq_ignore_case_equiv(e, e, e);
    assert forall|m: int| 0 <= m < 9 implies !#[trigger] ext_entry_matches(m, e) by {
        let x = extension_map(m).0.skip(1);
        if x.len() == e.len() {
            assert(ascii_lower(x[0]) != ascii_lower(e[0]) || ascii_lower(x[1]) != ascii_lower(e[1]) || ascii_lower(x[2]) != ascii_lower(e[2]));
        }
    }
    lemma_first_ext_entry_is(e, 9, 0);
    let c = mime_to_ext(12).0;
    assert forall|i: int| 0 <= i < c.len() implies #[trigger] c[i] != ';' && !is_unicode_whitespace(c[i]) by {}
    lemma_plain_cut_trim(c);
    lemma_eq_ignore_case_equiv(c, c, c);
    assert forall|m: int| 0 <= m < 12 implies !#[trigger] eq_ignore_ascii_case(mime_to_ext(m).0, c) by {
        let x = mime_to_ext(m).0;
        if x.len() == c.len() {
            assert(ascii_lower(x[0]) != ascii_lower(c[0]) || ascii_lower(x[1]) != ascii_lower(c[1]) || ascii_lower(x[2]) != ascii_lower(c[2]) || ascii_lower(x[3]) != ascii_lower(c[3]) || ascii_lower(x[4]) != ascii_lower(c[4]) || ascii_lower(x[5]) != ascii_lower(c[5]) || ascii_lower(x[6]) != ascii_lower(c[6]) || ascii_lower(x[7]) != ascii_lower(c[7]) || ascii_lower(x[8]) != ascii_lower(c[8]) || ascii_lower(x[9]) != ascii_lower(c[9]) || ascii_lower(x[10]) != ascii_lower(c[10]) || ascii_lower(x[11]) != ascii_lower(c[11]) || ascii_lower(x[12]) != ascii_lower(c[12]) || ascii_lower(x[13]) != ascii_lower(c[13]) || ascii_lower(x[14]) != ascii_lower(c[14]));
        }
    }
    lemma_first_mime_entry_is(c, 12, 0);
}

proof fn lemma_round_trip_13()
    ensures
        spec_mime_from_extension(Some(mime_to_ext(13).1.skip(1))) == mime_to_ext(13).0,
        spec_extension_from_mime(mime_to_ext(13).0) == mime_to_ext(13).1,
{
    reveal_strlit(".pdf");
    reveal_strlit(".doc");
    reveal_strlit(".docx");
    reveal_strlit(".xls");
    reveal_strlit(".xlsx");
    reveal_strlit(".ppt");
    reveal_strlit(".pptx");
    reveal_strlit(".txt");
    reveal_strlit("image/jpeg");
    reveal_strlit("image/png");
    reveal_strlit("image/gif");
    reveal_strlit("image/webp");
    reveal_strlit("image/bmp");
    reveal_strlit("video/mp4");
    reveal_strlit("video/quicktime");
    reveal_strlit("video/webm");
    reveal_strlit("audio/mpeg");
    reveal_strlit("audio/ogg");
    reveal_strlit("audio/wav");
    reveal_strlit("application/pdf");
    reveal_strlit("application/zip");
    reveal_strlit("text/plain");
    let e = mime_to_ext(13).1.skip(1);
    lemma_eq_ignore_case_equiv(e, e, e);
    assert forall|m: int| 0 <= m < 7 implies !#[trigger] ext_entry_matches(m, e) by {
        let x = extension_map(m).0.skip(1);
        if x.len() == e.len() {
            assert(ascii_lower(x[0]) != ascii_lower(e[0]) || ascii_lower(x[1]) != ascii_lower(e[1]) || ascii_lower(x[2]) != ascii_lower(e[2]));
        }
    }
    lemma_first_ext_entry_is(e, 7, 0);
    let c = mime_to_ext(13).0;
    assert forall|i: int| 0 <= i < c.len() implies #[trigger] c[i] != ';' && !is_unicode_whitespace(c[i]) by {}
    lemma_plain_cut_trim(c);
    lemma_eq_ignore_case_equiv(c, c, c);
    assert forall|m: int| 0 <= m < 13 implies !#[trigger] eq_ignore_ascii_case(mime_to_ext(m).0, c) by {
        let x = mime_to_ext(m).0;
        if x.len() == c.len() {
            assert(ascii_lower(x[0]) != ascii_lower(c[0]) || ascii_lower(x[1]) != ascii_lower(c[1]) || ascii_lower(x[2]) != ascii_lower(c[2]) || ascii_lower(x[3]) != ascii_lower(c[3]) || ascii_lower(x[4]) != ascii_lower(c[4]) || ascii_lower(x[5]) != ascii_lower(c[5]) || ascii_lower(x[6]) != ascii_lower(c[6]) || ascii_lower(x[7]) != ascii_lower(c[7]) || ascii_lower(x[8]) != ascii_lower(c[8]) || ascii_lower(x[9]) != ascii_lower(c[9]));
        }
    }
    lemma_first_mime_entry_is(c, 13, 0);
}

/// Every MIME type of the MIME → extension table comes back from its
/// extension: the extension table maps that extension (without its dot) to
/// the same type, and the type maps to that extension.
pub proof fn lemma_mime_extension_round_trip(j: int)
    requires
        0 <= j < MIME_TO_EXT_LEN,
    ensures
        spec_mime_from_extension(Some(mime_to_ext(j).1.skip(1))) == mime_to_ext(j).0,
        spec_extension_from_mime(mime_to_ext(j).0) == mime_to_ext(j).1,
{
    if j == 0 {
        lemma_round_trip_0();
    } else if j == 1 {
        lemma_round_trip_1();
    } else if j == 2 {
        lemma_round_trip_2();
    } else if j == 3 {
        lemma_round_trip_3();
    } else if j == 4 {
        lemma_round_trip_4();
    } else if j == 5 {
        lemma_round_trip_5();
    } else if j == 6 {
        lemma_round_trip_6();
    } else if j == 7 {
        lemma_round_trip_7();
    } else if j == 8 {
        lemma_round_trip_8();
    } else if j == 9 {
        lemma_round_trip_9();
    } else if j == 10 {
        lemma_round_trip_10();
    } else if j == 11 {
        lemma_round_trip_11();
    } else if j == 12 {
        lemma_round_trip_12();
    } else {
        lemma_round_trip_13();
    }
}


/// The extension for any MIME type is one of the table's dotted extensions
/// or `.bin`: it always starts with a dot.
pub proof fn lemma_extension_from_mime_is_dotted(mime: Seq<char>)
    ensures
        spec_extension_from_mime(mime).len() > 1,
        spec_extension_from_mime(mime)[0] == '.',
{
    reveal_strlit(".jpg");
    reveal_strlit(".png");
    reveal_strlit(".gif");
    reveal_strlit(".webp");
    reveal_strlit(".bmp");
    reveal_strlit(".mp4");
    reveal_strlit(".mov");
    reveal_strlit(".webm");
    reveal_strlit(".mp3");
    reveal_strlit(".ogg");
    reveal_strlit(".wav");
    reveal_strlit(".pdf");
    reveal_strlit(".zip");
    reveal_strlit(".txt");
    reveal_strlit(".bin");
    lemma_first_mime_entry_range(spec_content_type_essence(mime), 0);
}

/// A path's MIME type is `application/octet-stream` exactly where its
/// extension is absent or names no entry of the extension table.
pub proof fn lemma_octet_stream_iff_unknown(ext: Option<Seq<char>>)
    ensures
        spec_mime_from_extension(ext) == "application/octet-stream"@ <==> match ext {
            Some(e) => first_ext_entry(e, 0) == EXTENSION_MAP_LEN,
            None => true,
        },
{
    if let Some(e) = ext {
        lemma_first_ext_entry_range(e, 0);
        let k = first_ext_entry(e, 0);
        if k < EXTENSION_MAP_LEN {
    reveal_strlit("application/pdf");
    reveal_strlit("application/msword");
    reveal_strlit("application/vnd.openxmlformats-officedocument.wordprocessingml.document");
    reveal_strlit("application/vnd.ms-excel");
    reveal_strlit("application/vnd.openxmlformats-officedocument.spreadsheetml.sheet");
    reveal_strlit("application/vnd.ms-powerpoint");
    reveal_strlit("application/vnd.openxmlformats-officedocument.presentationml.presentation");
    reveal_strlit("text/plain");
    reveal_strlit("text/csv");
    reveal_strlit("application/zip");
    reveal_strlit("application/x-tar");
    reveal_strlit("application/gzip");
    reveal_strlit("audio/mpeg");
    reveal_strlit("audio/ogg");
    reveal_strlit("audio/wav");
    reveal_strlit("video/mp4");
    reveal_strlit("video/quicktime");
    reveal_strlit("video/webm");
    reveal_strlit("video/x-matroska");
    reveal_strlit("video/x-msvideo");
    reveal_strlit("image/png");
    reveal_strlit("image/jpeg");
    reveal_strlit("image/gif");
    reveal_strlit("image/webp");
    reveal_strlit("image/bmp");
            reveal_strlit("application/octet-stream");
            let x = extension_map(k).1;
            let o = "application/octet-stream"@;
            assert(x.len() != o.len() || x[12] != o[12]);
        }
    }
}


proof fn lemma_extension_pdf()
    ensures
        spec_mime_from_extension(Some("pdf"@)) == "application/pdf"@,
{
    reveal_strlit(".pdf");
    reveal_strlit("pdf");
    reveal_strlit("application/pdf");
    let e = "pdf"@;
    lemma_eq_ignore_case_equiv(e, e, e);
    assert(extension_map(0).0.skip(1) =~= e);
    lemma_first_ext_entry_is(e, 0, 0);
}

proof fn lemma_extension_doc()
    ensures
        spec_mime_from_extension(Some("doc"@)) == "application/msword"@,
{
    reveal_strlit(".pdf");
    reveal_strlit(".doc");
    reveal_strlit("doc");
    reveal_strlit("application/msword");
    let e = "doc"@;
    lemma_eq_ignore_case_equiv(e, e, e);
    assert(extension_map(1).0.skip(1) =~= e);
    assert forall|m: int| 0 <= m < 1 implies !#[trigger] ext_entry_matches(m, e) by {
        let x = extension_map(m).0.skip(1);
        if x.len() == e.len() {
            assert(ascii_lower(x[0]) != ascii_lower(e[0]) || ascii_lower(x[1]) != ascii_lower(e[1]) || ascii_lower(x[2]) != ascii_lower(e[2]));
        }
    }
    lemma_first_ext_entry_is(e, 1, 0);
}

proof fn lemma_extension_docx()
    ensures
        spec_mime_from_extension(Some("docx"@)) == "application/vnd.openxmlformats-officedocument.wordprocessingml.document"@,
{
    reveal_strlit(".pdf");
    reveal_strlit(".doc");
    reveal_strlit(".docx");
    reveal_strlit("docx");
    reveal_strlit("application/vnd.openxmlformats-officedocument.wordprocessingml.document");
    let e = "docx"@;
    lemma_eq_ignore_case_equiv(e, e, e);
    assert(extension_map(2).0.skip(1) =~= e);
    assert forall|m: int| 0 <= m < 2 implies !#[trigger] ext_entry_matches(m, e) by {
        let x = extension_map(m).0.skip(1);
        if x.len() == e.len() {
            assert(ascii_lower(x[0]) != ascii_lower(e[0]) || ascii_lower(x[1]) != ascii_lower(e[1]) || ascii_lower(x[2]) != ascii_lower(e[2]) || ascii_lower(x[3]) != ascii_lower(e[3]));
        }
    }
    lemma_first_ext_entry_is(e, 2, 0);
}

proof fn lemma_extension_xls()
    ensures
        spec_mime_from_extension(Some("xls"@)) == "application/vnd.ms-excel"@,
{
    reveal_strlit(".pdf");
    reveal_strlit(".doc");
    reveal_strlit(".docx");
    reveal_strlit(".xls");
    reveal_strlit("xls");
    reveal_strlit("application/vnd.ms-excel");
    let e = "xls"@;
    lemma_eq_ignore_case_equiv(e, e, e);
    assert(extension_map(3).0.skip(1) =~= e);
    assert forall|m: int| 0 <= m < 3 implies !#[trigger] ext_entry_matches(m, e) by {
        let x = extension_map(m).0.skip(1);
        if x.len() == e.len() {
            assert(ascii_lower(x[0]) != ascii_lower(e[0]) || ascii_lower(x[1]) != ascii_lower(e[1]) || ascii_lower(x[2]) != ascii_lower(e[2]));
        }
    }
    lemma_first_ext_entry_is(e, 3, 0);
}

proof fn lemma_extension_xlsx()
    ensures
        spec_mime_from_extension(Some("xlsx"@)) == "application/vnd.openxmlformats-officedocument.spreadsheetml.sheet"@,
{
    reveal_strlit(".pdf");
    reveal_strlit(".doc");
    reveal_strlit(".docx");
    reveal_strlit(".xls");
    reveal_strlit(".xlsx");
    reveal_strlit("xlsx");
    reveal_strlit("application/vnd.openxmlformats-officedocument.spreadsheetml.sheet");
    let e = "xlsx"@;
    lemma_eq_ignore_case_equiv(e, e, e);
    assert(extension_map(4).0.skip(1) =~= e);
    assert forall|m: int| 0 <= m < 4 implies !#[trigger] ext_entry_matches(m, e) by {
        let x = extension_map(m).0.skip(1);
        if x.len() == e.len() {
            assert(ascii_lower(x[0]) != ascii_lower(e[0]) || ascii_lower(x[1]) != ascii_lower(e[1]) || ascii_lower(x[2]) != ascii_lower(e[2]) || ascii_lower(x[3]) != ascii_lower(e[3]));
        }
    }
    lemma_first_ext_entry_is(e, 4, 0);
}

proof fn lemma_extension_ppt()
    ensures
        spec_mime_from_extension(Some("ppt"@)) == "application/vnd.ms-powerpoint"@,
{
    reveal_strlit(".pdf");
    reveal_strlit(".doc");
    reveal_strlit(".docx");
    reveal_strlit(".xls");
    reveal_strlit(".xlsx");
    reveal_strlit(".ppt");
    reveal_strlit("ppt");
    reveal_strlit("application/vnd.ms-powerpoint");
    let e = "ppt"@;
    lemma_eq_ignore_case_equiv(e, e, e);
    assert(extension_map(5).0.skip(1) =~= e);
    assert forall|m: int| 0 <= m < 5 implies !#[trigger] ext_entry_matches(m, e) by {
        let x = extension_map(m).0.skip(1);
        if x.len() == e.len() {
            assert(ascii_lower(x[0]) != ascii_lower(e[0]) || ascii_lower(x[1]) != ascii_lower(e[1]) || ascii_lower(x[2]) != ascii_lower(e[2]));
        }
    }
    lemma_first_ext_entry_is(e, 5, 0);
}

proof fn lemma_extension_pptx()
    ensures
        spec_mime_from_extension(Some("pptx"@)) == "application/vnd.openxmlformats-officedocument.presentationml.presentation"@,
{
    reveal_strlit(".pdf");
    reveal_strlit(".doc");
    reveal_strlit(".docx");
    reveal_strlit(".xls");
    reveal_strlit(".xlsx");
    reveal_strlit(".ppt");
    reveal_strlit(".pptx");
    reveal_strlit("pptx");
    reveal_strlit("application/vnd.openxmlformats-officedocument.presentationml.presentation");
    let e = "pptx"@;
    lemma_eq_ignore_case_equiv(e, e, e);
    assert(extension_map(6).0.skip(1) =~= e);
    assert forall|m: int| 0 <= m < 6 implies !#[trigger] ext_entry_matches(m, e) by {
        let x = extension_map(m).0.skip(1);
        if x.len() == e.len() {
            assert(ascii_lower(x[0]) != ascii_lower(e[0]) || ascii_lower(x[1]) != ascii_lower(e[1]) || ascii_lower(x[2]) != ascii_lower(e[2]) || ascii_lower(x[3]) != ascii_lower(e[3]));
        }
    }
    lemma_first_ext_entry_is(e, 6, 0);
}

proof fn lemma_extension_txt()
    ensures
        spec_mime_from_extension(Some("txt"@)) == "text/plain"@,
{
    reveal_strlit(".pdf");
    reveal_strlit(".doc");
    reveal_strlit(".docx");
    reveal_strlit(".xls");
    reveal_strlit(".xlsx");
    reveal_strlit(".ppt");
    reveal_strlit(".pptx");
    reveal_strlit(".txt");
    reveal_strlit("txt");
    reveal_strlit("text/plain");
    let e = "txt"@;
    lemma_eq_ignore_case_equiv(e, e, e);
    assert(extension_map(7).0.skip(1) =~= e);
    assert forall|m: int| 0 <= m < 7 implies !#[trigger] ext_entry_matches(m, e) by {
        let x = extension_map(m).0.skip(1);
        if x.len() == e.len() {
            assert(ascii_lower(x[0]) != ascii_lower(e[0]) || ascii_lower(x[1]) != ascii_lower(e[1]) || ascii_lower(x[2]) != ascii_lower(e[2]));
        }
    }
    lemma_first_ext_entry_is(e, 7, 0);
}

proof fn lemma_extension_csv()
    ensures
        spec_mime_from_extension(Some("csv"@)) == "text/csv"@,
{
    reveal_strlit(".pdf");
    reveal_strlit(".doc");
    reveal_strlit(".docx");
    reveal_strlit(".xls");
    reveal_strlit(".xlsx");
    reveal_strlit(".ppt");
    reveal_strlit(".pptx");
    reveal_strlit(".txt");
    reveal_strlit(".csv");
    reveal_strlit("csv");
    reveal_strlit("text/csv");
    let e = "csv"@;
    lemma_eq_ignore_case_equiv(e, e, e);
    assert(extension_map(8).0.skip(1) =~= e);
    assert forall|m: int| 0 <= m < 8 implies !#[trigger] ext_entry_matches(m, e) by {
        let x = extension_map(m).0.skip(1);
        if x.len() == e.len() {
            assert(ascii_lower(x[0]) != ascii_lower(e[0]) || ascii_lower(x[1]) != ascii_lower(e[1]) || ascii_lower(x[2]) != ascii_lower(e[2]));
        }
    }
    lemma_first_ext_entry_is(e, 8, 0);
}

proof fn lemma_extension_zip()
    ensures
        spec_mime_from_extension(Some("zip"@)) == "application/zip"@,
{
    reveal_strlit(".pdf");
    reveal_strlit(".doc");
    reveal_strlit(".docx");
    reveal_strlit(".xls");
    reveal_strlit(".xlsx");
    reveal_strlit(".ppt");
    reveal_strlit(".pptx");
    reveal_strlit(".txt");
    reveal_strlit(".csv");
    reveal_strlit(".zip");
    reveal_strlit("zip");
    reveal_strlit("application/zip");
    let e = "zip"@;
    lemma_eq_ignore_case_equiv(e, e, e);
    assert(extension_map(9).0.skip(1) =~= e);
    assert forall|m: int| 0 <= m < 9 implies !#[trigger] ext_entry_matches(m, e) by {
        let x = extension_map(m).0.skip(1);
        if x.len() == e.len() {
            assert(ascii_lower(x[0]) != ascii_lower(e[0]) || ascii_lower(x[1]) != ascii_lower(e[1]) || ascii_lower(x[2]) != ascii_lower(e[2]));
        }
    }
    lemma_first_ext_entry_is(e, 9, 0);
}

proof fn lemma_extension_tar()
    ensures
        spec_mime_from_extension(Some("tar"@)) == "application/x-tar"@,
{
    reveal_strlit(".pdf");
    reveal_strlit(".doc");
    reveal_strlit(".docx");
    reveal_strlit(".xls");
    reveal_strlit(".xlsx");
    reveal_strlit(".ppt");
    reveal_strlit(".pptx");
    reveal_strlit(".txt");
    reveal_strlit(".csv");
    reveal_strlit(".zip");
    reveal_strlit(".tar");
    reveal_strlit("tar");
    reveal_strlit("application/x-tar");
    let e = "tar"@;
    lemma_eq_ignore_case_equiv(e, e, e);
    assert(extension_map(10).0.skip(1) =~= e);
    assert forall|m: int| 0 <= m < 10 implies !#[trigger] ext_entry_matches(m, e) by {
        let x = extension_map(m).0.skip(1);
        if x.len() == e.len() {
            assert(ascii_lower(x[0]) != ascii_lower(e[0]) || ascii_lower(x[1]) != ascii_lower(e[1]) || ascii_lower(x[2]) != ascii_lower(e[2]));
        }
    }
    lemma_first_ext_entry_is(e, 10, 0);
}

proof fn lemma_extension_gz()
    ensures
        spec_mime_from_extension(Some("gz"@)) == "application/gzip"@,
{
    reveal_strlit(".pdf");
    reveal_strlit(".doc");
    reveal_strlit(".docx");
    reveal_strlit(".xls");
    reveal_strlit(".xlsx");
    reveal_strlit(".ppt");
    reveal_strlit(".pptx");
    reveal_strlit(".txt");
    reveal_strlit(".csv");
    reveal_strlit(".zip");
    reveal_strlit(".tar");
    reveal_strlit(".gz");
    reveal_strlit("gz");
    reveal_strlit("application/gzip");
    let e = "gz"@;
    lemma_eq_ignore_case_equiv(e, e, e);
    assert(extension_map(11).0.skip(1) =~= e);
    assert forall|m: int| 0 <= m < 11 implies !#[trigger] ext_entry_matches(m, e) by {
        let x = extension_map(m).0.skip(1);
        if x.len() == e.len() {
            assert(ascii_lower(x[0]) != ascii_lower(e[0]) || ascii_lower(x[1]) != ascii_lower(e[1]));
        }
    }
    lemma_first_ext_entry_is(e, 11, 0);
}

proof fn lemma_extension_mp3()
    ensures
        spec_mime_from_extension(Some("mp3"@)) == "audio/mpeg"@,
{
    reveal_strlit(".pdf");
    reveal_strlit(".doc");
    reveal_strlit(".docx");
    reveal_strlit(".xls");
    reveal_strlit(".xlsx");
    reveal_strlit(".ppt");
    reveal_strlit(".pptx");
    reveal_strlit(".txt");
    reveal_strlit(".csv");
    reveal_strlit(".zip");
    reveal_strlit(".tar");
    reveal_strlit(".gz");
    reveal_strlit(".mp3");
    reveal_strlit("mp3");
    reveal_strlit("audio/mpeg");
    let e = "mp3"@;
    lemma_eq_ignore_case_equiv(e, e, e);
    assert(extension_map(12).0.skip(1) =~= e);
    assert forall|m: int| 0 <= m < 12 implies !#[trigger] ext_entry_matches(m, e) by {
        let x = extension_map(m).0.skip(1);
        if x.len() == e.len() {
            assert(ascii_lower(x[0]) != ascii_lower(e[0]) || ascii_lower(x[1]) != ascii_lower(e[1]) || ascii_lower(x[2]) != ascii_lower(e[2]));
        }
    }
    lemma_first_ext_entry_is(e, 12, 0);
}

proof fn lemma_extension_ogg()
    ensures
        spec_mime_from_extension(Some("ogg"@)) == "audio/ogg"@,
{
    reveal_strlit(".pdf");
    reveal_strlit(".doc");
    reveal_strlit(".docx");
    reveal_strlit(".xls");
    reveal_strlit(".xlsx");
    reveal_strlit(".ppt");
    reveal_strlit(".pptx");
    reveal_strlit(".txt");
    reveal_strlit(".csv");
    reveal_strlit(".zip");
    reveal_strlit(".tar");
    reveal_strlit(".gz");
    reveal_strlit(".mp3");
    reveal_strlit(".ogg");
    reveal_strlit("ogg");
    reveal_strlit("audio/ogg");
    let e = "ogg"@;
    lemma_eq_ignore_case_equiv(e, e, e);
    assert(extension_map(13).0.skip(1) =~= e);
    assert forall|m: int| 0 <= m < 13 implies !#[trigger] ext_entry_matches(m, e) by {
        let x = extension_map(m).0.skip(1);
        if x.len() == e.len() {
            assert(ascii_lower(x[0]) != ascii_lower(e[0]) || ascii_lower(x[1]) != ascii_lower(e[1]) || ascii_lower(x[2]) != ascii_lower(e[2]));
        }
    }
    lemma_first_ext_entry_is(e, 13, 0);
}

proof fn lemma_extension_wav()
    ensures
        spec_mime_from_extension(Some("wav"@)) == "audio/wav"@,
{
    reveal_strlit(".pdf");
    reveal_strlit(".doc");
    reveal_strlit(".docx");
    reveal_strlit(".xls");
    reveal_strlit(".xlsx");
    reveal_strlit(".ppt");
    reveal_strlit(".pptx");
    reveal_strlit(".txt");
    reveal_strlit(".csv");
    reveal_strlit(".zip");
    reveal_strlit(".tar");
    reveal_strlit(".gz");
    reveal_strlit(".mp3");
    reveal_strlit(".ogg");
    reveal_strlit(".wav");
    reveal_strlit("wav");
    reveal_strlit("audio/wav");
    let e = "wav"@;
    lemma_eq_ignore_case_equiv(e, e, e);
    assert(extension_map(14).0.skip(1) =~= e);
    assert forall|m: int| 0 <= m < 14 implies !#[trigger] ext_entry_matches(m, e) by {
        let x = extension_map(m).0.skip(1);
        if x.len() == e.len() {
            assert(ascii_lower(x[0]) != ascii_lower(e[0]) || ascii_lower(x[1]) != ascii_lower(e[1]) || ascii_lower(x[2]) != ascii_lower(e[2]));
        }
    }
    lemma_first_ext_entry_is(e, 14, 0);
}

proof fn lemma_extension_mp4()
    ensures
        spec_mime_from_extension(Some("mp4"@)) == "video/mp4"@,
{
    reveal_strlit(".pdf");
    reveal_strlit(".doc");
    reveal_strlit(".docx");
    reveal_strlit(".xls");
    reveal_strlit(".xlsx");
    reveal_strlit(".ppt");
    reveal_strlit(".pptx");
    reveal_strlit(".txt");
    reveal_strlit(".csv");
    reveal_strlit(".zip");
    reveal_strlit(".tar");
    reveal_strlit(".gz");
    reveal_strlit(".mp3");
    reveal_strlit(".ogg");
    reveal_strlit(".wav");
    reveal_strlit(".mp4");
    reveal_strlit("mp4");
    reveal_strlit("video/mp4");
    let e = "mp4"@;
    lemma_eq_ignore_case_equiv(e, e, e);
    assert(extension_map(15).0.skip(1) =~= e);
    assert forall|m: int| 0 <= m < 15 implies !#[trigger] ext_entry_matches(m, e) by {
        let x = extension_map(m).0.skip(1);
        if x.len() == e.len() {
            assert(ascii_lower(x[0]) != ascii_lower(e[0]) || ascii_lower(x[1]) != ascii_lower(e[1]) || ascii_lower(x[2]) != ascii_lower(e[2]));
        }
    }
    lemma_first_ext_entry_is(e, 15, 0);
}

proof fn lemma_extension_mov()
    ensures
        spec_mime_from_extension(Some("mov"@)) == "video/quicktime"@,
{
    reveal_strlit(".pdf");
    reveal_strlit(".doc");
    reveal_strlit(".docx");
    reveal_strlit(".xls");
    reveal_strlit(".xlsx");
    reveal_strlit(".ppt");
    reveal_strlit(".pptx");
    reveal_strlit(".txt");
    reveal_strlit(".csv");
    reveal_strlit(".zip");
    reveal_strlit(".tar");
    reveal_strlit(".gz");
    reveal_strlit(".mp3");
    reveal_strlit(".ogg");
    reveal_strlit(".wav");
    reveal_strlit(".mp4");
    reveal_strlit(".mov");
    reveal_strlit("mov");
    reveal_strlit("video/quicktime");
    let e = "mov"@;
    lemma_eq_ignore_case_equiv(e, e, e);
    assert(extension_map(16).0.skip(1) =~= e);
    assert forall|m: int| 0 <= m < 16 implies !#[trigger] ext_entry_matches(m, e) by {
        let x = extension_map(m).0.skip(1);
        if x.len() == e.len() {
            assert(ascii_lower(x[0]) != ascii_lower(e[0]) || ascii_lower(x[1]) != ascii_lower(e[1]) || ascii_lower(x[2]) != ascii_lower(e[2]));
        }
    }
    lemma_first_ext_entry_is(e, 16, 0);
}

proof fn lemma_extension_webm()
    ensures
        spec_mime_from_extension(Some("webm"@)) == "video/webm"@,
{
    reveal_strlit(".pdf");
    reveal_strlit(".doc");
    reveal_strlit(".docx");
    reveal_strlit(".xls");
    reveal_strlit(".xlsx");
    reveal_strlit(".ppt");
    reveal_strlit(".pptx");
    reveal_strlit(".txt");
    reveal_strlit(".csv");
    reveal_strlit(".zip");
    reveal_strlit(".tar");
    reveal_strlit(".gz");
    reveal_strlit(".mp3");
    reveal_strlit(".ogg");
    reveal_strlit(".wav");
    reveal_strlit(".mp4");
    reveal_strlit(".mov");
    reveal_strlit(".webm");
    reveal_strlit("webm");
    reveal_strlit("video/webm");
    let e = "webm"@;
    lemma_eq_ignore_case_equiv(e, e, e);
    assert(extension_map(17).0.skip(1) =~= e);
    assert forall|m: int| 0 <= m < 17 implies !#[trigger] ext_entry_matches(m, e) by {
        let x = extension_map(m).0.skip(1);
        if x.len() == e.len() {
            assert(ascii_lower(x[0]) != ascii_lower(e[0]) || ascii_lower(x[1]) != ascii_lower(e[1]) || ascii_lower(x[2]) != ascii_lower(e[2]) || ascii_lower(x[3]) != ascii_lower(e[3]));
        }
    }
    lemma_first_ext_entry_is(e, 17, 0);
}

proof fn lemma_extension_mkv()
    ensures
        spec_mime_from_extension(Some("mkv"@)) == "video/x-matroska"@,
{
    reveal_strlit(".pdf");
    reveal_strlit(".doc");
    reveal_strlit(".docx");
    reveal_strlit(".xls");
    reveal_strlit(".xlsx");
    reveal_strlit(".ppt");
    reveal_strlit(".pptx");
    reveal_strlit(".txt");
    reveal_strlit(".csv");
    reveal_strlit(".zip");
    reveal_strlit(".tar");
    reveal_strlit(".gz");
    reveal_strlit(".mp3");
    reveal_strlit(".ogg");
    reveal_strlit(".wav");
    reveal_strlit(".mp4");
    reveal_strlit(".mov");
    reveal_strlit(".webm");
    reveal_strlit(".mkv");
    reveal_strlit("mkv");
    reveal_strlit("video/x-matroska");
    let e = "mkv"@;
    lemma_eq_ignore_case_equiv(e, e, e);
    assert(extension_map(18).0.skip(1) =~= e);
    assert forall|m: int| 0 <= m < 18 implies !#[trigger] ext_entry_matches(m, e) by {
        let x = extension_map(m).0.skip(1);
        if x.len() == e.len() {
            assert(ascii_lower(x[0]) != ascii_lower(e[0]) || ascii_lower(x[1]) != ascii_lower(e[1]) || ascii_lower(x[2]) != ascii_lower(e[2]));
        }
    }
    lemma_first_ext_entry_is(e, 18, 0);
}

proof fn lemma_extension_avi()
    ensures
        spec_mime_from_extension(Some("avi"@)) == "video/x-msvideo"@,
{
    reveal_strlit(".pdf");
    reveal_strlit(".doc");
    reveal_strlit(".docx");
    reveal_strlit(".xls");
    reveal_strlit(".xlsx");
    reveal_strlit(".ppt");
    reveal_strlit(".pptx");
    reveal_strlit(".txt");
    reveal_strlit(".csv");
    reveal_strlit(".zip");
    reveal_strlit(".tar");
    reveal_strlit(".gz");
    reveal_strlit(".mp3");
    reveal_strlit(".ogg");
    reveal_strlit(".wav");
    reveal_strlit(".mp4");
    reveal_strlit(".mov");
    reveal_strlit(".webm");
    reveal_strlit(".mkv");
    reveal_strlit(".avi");
    reveal_strlit("avi");
    reveal_strlit("video/x-msvideo");
    let e = "avi"@;
    lemma_eq_ignore_case_equiv(e, e, e);
    assert(extension_map(19).0.skip(1) =~= e);
    assert forall|m: int| 0 <= m < 19 implies !#[trigger] ext_entry_matches(m, e) by {
        let x = extension_map(m).0.skip(1);
        if x.len() == e.len() {
            assert(ascii_lower(x[0]) != ascii_lower(e[0]) || ascii_lower(x[1]) != ascii_lower(e[1]) || ascii_lower(x[2]) != ascii_lower(e[2]));
        }
    }
    lemma_first_ext_entry_is(e, 19, 0);
}

proof fn lemma_extension_png()
    ensures
        spec_mime_from_extension(Some("png"@)) == "image/png"@,
{
    reveal_strlit(".pdf");
    reveal_strlit(".doc");
    reveal_strlit(".docx");
    reveal_strlit(".xls");
    reveal_strlit(".xlsx");
    reveal_strlit(".ppt");
    reveal_strlit(".pptx");
    reveal_strlit(".txt");
    reveal_strlit(".csv");
    reveal_strlit(".zip");
    reveal_strlit(".tar");
    reveal_strlit(".gz");
    reveal_strlit(".mp3");
    reveal_strlit(".ogg");
    reveal_strlit(".wav");
    reveal_strlit(".mp4");
    reveal_strlit(".mov");
    reveal_strlit(".webm");
    reveal_strlit(".mkv");
    reveal_strlit(".avi");
    reveal_strlit(".png");
    reveal_strlit("png");
    reveal_strlit("image/png");
    let e = "png"@;
    lemma_eq_ignore_case_equiv(e, e, e);
    assert(extension_map(20).0.skip(1) =~= e);
    assert forall|m: int| 0 <= m < 20 implies !#[trigger] ext_entry_matches(m, e) by {
        let x = extension_map(m).0.skip(1);
        if x.len() == e.len() {
            assert(ascii_lower(x[0]) != ascii_lower(e[0]) || ascii_lower(x[1]) != ascii_lower(e[1]) || ascii_lower(x[2]) != ascii_lower(e[2]));
        }
    }
    lemma_first_ext_entry_is(e, 20, 0);
}

proof fn lemma_extension_jpg()
    ensures
        spec_mime_from_extension(Some("jpg"@)) == "image/jpeg"@,
{
    reveal_strlit(".pdf");
    reveal_strlit(".doc");
    reveal_strlit(".docx");
    reveal_strlit(".xls");
    reveal_strlit(".xlsx");
    reveal_strlit(".ppt");
    reveal_strlit(".pptx");
    reveal_strlit(".txt");
    reveal_strlit(".csv");
    reveal_strlit(".zip");
    reveal_strlit(".tar");
    reveal_strlit(".gz");
    reveal_strlit(".mp3");
    reveal_strlit(".ogg");
    reveal_strlit(".wav");
    reveal_strlit(".mp4");
    reveal_strlit(".mov");
    reveal_strlit(".webm");
    reveal_strlit(".mkv");
    reveal_strlit(".avi");
    reveal_strlit(".png");
    reveal_strlit(".jpg");
    reveal_strlit("jpg");
    reveal_strlit("image/jpeg");
    let e = "jpg"@;
    lemma_eq_ignore_case_equiv(e, e, e);
    assert(extension_map(21).0.skip(1) =~= e);
    assert forall|m: int| 0 <= m < 21 implies !#[trigger] ext_entry_matches(m, e) by {
        let x = extension_map(m).0.skip(1);
        if x.len() == e.len() {
            assert(ascii_lower(x[0]) != ascii_lower(e[0]) || ascii_lower(x[1]) != ascii_lower(e[1]) || ascii_lower(x[2]) != ascii_lower(e[2]));
        }
    }
    lemma_first_ext_entry_is(e, 21, 0);
}

proof fn lemma_extension_jpeg()
    ensures
        spec_mime_from_extension(Some("jpeg"@)) == "image/jpeg"@,
{
    reveal_strlit(".pdf");
    reveal_strlit(".doc");
    reveal_strlit(".docx");
    reveal_strlit(".xls");
    reveal_strlit(".xlsx");
    reveal_strlit(".ppt");
    reveal_strlit(".pptx");
    reveal_strlit(".txt");
    reveal_strlit(".csv");
    reveal_strlit(".zip");
    reveal_strlit(".tar");
    reveal_strlit(".gz");
    reveal_strlit(".mp3");
    reveal_strlit(".ogg");
    reveal_strlit(".wav");
    reveal_strlit(".mp4");
    reveal_strlit(".mov");
    reveal_strlit(".webm");
    reveal_strlit(".mkv");
    reveal_strlit(".avi");
    reveal_strlit(".png");
    reveal_strlit(".jpg");
    reveal_strlit(".jpeg");
    reveal_strlit("jpeg");
    reveal_strlit("image/jpeg");
    let e = "jpeg"@;
    lemma_eq_ignore_case_equiv(e, e, e);
    assert(extension_map(22).0.skip(1) =~= e);
    assert forall|m: int| 0 <= m < 22 implies !#[trigger] ext_entry_matches(m, e) by {
        let x = extension_map(m).0.skip(1);
        if x.len() == e.len() {
            assert(ascii_lower(x[0]) != ascii_lower(e[0]) || ascii_lower(x[1]) != ascii_lower(e[1]) || ascii_lower(x[2]) != ascii_lower(e[2]) || ascii_lower(x[3]) != ascii_lower(e[3]));
        }
    }
    lemma_first_ext_entry_is(e, 22, 0);
}

proof fn lemma_extension_gif()
    ensures
        spec_mime_from_extension(Some("gif"@)) == "image/gif"@,
{
    reveal_strlit(".pdf");
    reveal_strlit(".doc");
    reveal_strlit(".docx");
    reveal_strlit(".xls");
    reveal_strlit(".xlsx");
    reveal_strlit(".ppt");
    reveal_strlit(".pptx");
    reveal_strlit(".txt");
    reveal_strlit(".csv");
    reveal_strlit(".zip");
    reveal_strlit(".tar");
    reveal_strlit(".gz");
    reveal_strlit(".mp3");
    reveal_strlit(".ogg");
    reveal_strlit(".wav");
    reveal_strlit(".mp4");
    reveal_strlit(".mov");
    reveal_strlit(".webm");
    reveal_strlit(".mkv");
    reveal_strlit(".avi");
    reveal_strlit(".png");
    reveal_strlit(".jpg");
    reveal_strlit(".jpeg");
    reveal_strlit(".gif");
    reveal_strlit("gif");
    reveal_strlit("image/gif");
    let e = "gif"@;
    lemma_eq_ignore_case_equiv(e, e, e);
    assert(extension_map(23).0.skip(1) =~= e);
    assert forall|m: int| 0 <= m < 23 implies !#[trigger] ext_entry_matches(m, e) by {
        let x = extension_map(m).0.skip(1);
        if x.len() == e.len() {
            assert(ascii_lower(x[0]) != ascii_lower(e[0]) || ascii_lower(x[1]) != ascii_lower(e[1]) || ascii_lower(x[2]) != ascii_lower(e[2]));
        }
    }
    lemma_first_ext_entry_is(e, 23, 0);
}

proof fn lemma_extension_webp()
    ensures
        spec_mime_from_extension(Some("webp"@)) == "image/webp"@,
{
    reveal_strlit(".pdf");
    reveal_strlit(".doc");
    reveal_strlit(".docx");
    reveal_strlit(".xls");
    reveal_strlit(".xlsx");
    reveal_strlit(".ppt");
    reveal_strlit(".pptx");
    reveal_strlit(".txt");
    reveal_strlit(".csv");
    reveal_strlit(".zip");
    reveal_strlit(".tar");
    reveal_strlit(".gz");
    reveal_strlit(".mp3");
    reveal_strlit(".ogg");
    reveal_strlit(".wav");
    reveal_strlit(".mp4");
    reveal_strlit(".mov");
    reveal_strlit(".webm");
    reveal_strlit(".mkv");
    reveal_strlit(".avi");
    reveal_strlit(".png");
    reveal_strlit(".jpg");
    reveal_strlit(".jpeg");
    reveal_strlit(".gif");
    reveal_strlit(".webp");
    reveal_strlit("webp");
    reveal_strlit("image/webp");
    let e = "webp"@;
    lemma_eq_ignore_case_equiv(e, e, e);
    assert(extension_map(24).0.skip(1) =~= e);
    assert forall|m: int| 0 <= m < 24 implies !#[trigger] ext_entry_matches(m, e) by {
        let x = extension_map(m).0.skip(1);
        if x.len() == e.len() {
            assert(ascii_lower(x[0]) != ascii_lower(e[0]) || ascii_lower(x[1]) != ascii_lower(e[1]) || ascii_lower(x[2]) != ascii_lower(e[2]) || ascii_lower(x[3]) != ascii_lower(e[3]));
        }
    }
    lemma_first_ext_entry_is(e, 24, 0);
}

proof fn lemma_extension_bmp()
    ensures
        spec_mime_from_extension(Some("bmp"@)) == "image/bmp"@,
{
    reveal_strlit(".pdf");
    reveal_strlit(".doc");
    reveal_strlit(".docx");
    reveal_strlit(".xls");
    reveal_strlit(".xlsx");
    reveal_strlit(".ppt");
    reveal_strlit(".pptx");
    reveal_strlit(".txt");
    reveal_strlit(".csv");
    reveal_strlit(".zip");
    reveal_strlit(".tar");
    reveal_strlit(".gz");
    reveal_strlit(".mp3");
    reveal_strlit(".ogg");
    reveal_strlit(".wav");
    reveal_strlit(".mp4");
    reveal_strlit(".mov");
    reveal_strlit(".webm");
    reveal_strlit(".mkv");
    reveal_strlit(".avi");
    reveal_strlit(".png");
    reveal_strlit(".jpg");
    reveal_strlit(".jpeg");
    reveal_strlit(".gif");
    reveal_strlit(".webp");
    reveal_strlit(".bmp");
    reveal_strlit("bmp");
    reveal_strlit("image/bmp");
    let e = "bmp"@;
    lemma_eq_ignore_case_equiv(e, e, e);
    assert(extension_map(25).0.skip(1) =~= e);
    assert forall|m: int| 0 <= m < 25 implies !#[trigger] ext_entry_matches(m, e) by {
        let x = extension_map(m).0.skip(1);
        if x.len() == e.len() {
            assert(ascii_lower(x[0]) != ascii_lower(e[0]) || ascii_lower(x[1]) != ascii_lower(e[1]) || ascii_lower(x[2]) != ascii_lower(e[2]));
        }
    }
    lemma_first_ext_entry_is(e, 25, 0);
}

proof fn lemma_mime_image_jpeg()
    ensures
        spec_extension_from_mime("image/jpeg"@) == ".jpg"@,
{
    reveal_strlit("image/jpeg");
    reveal_strlit(".jpg");
    let c = "image/jpeg"@;
    assert(mime_to_ext(0).0 =~= c);
    assert forall|i: int| 0 <= i < c.len() implies #[trigger] c[i] != ';' && !is_unicode_whitespace(c[i]) by {}
    lemma_plain_cut_trim(c);
    lemma_eq_ignore_case_equiv(c, c, c);
    lemma_first_mime_entry_is(c, 0, 0);
}

proof fn lemma_mime_image_png()
    ensures
        spec_extension_from_mime("image/png"@) == ".png"@,
{
    reveal_strlit("image/jpeg");
    reveal_strlit("image/png");
    reveal_strlit(".png");
    let c = "image/png"@;
    assert(mime_to_ext(1).0 =~= c);
    assert forall|i: int| 0 <= i < c.len() implies #[trigger] c[i] != ';' && !is_unicode_whitespace(c[i]) by {}
    lemma_plain_cut_trim(c);
    lemma_eq_ignore_case_equiv(c, c, c);
    assert forall|m: int| 0 <= m < 1 implies !#[trigger] eq_ignore_ascii_case(mime_to_ext(m).0, c) by {
        let x = mime_to_ext(m).0;
        if x.len() == c.len() {
            assert(ascii_lower(x[0]) != ascii_lower(c[0]) || ascii_lower(x[1]) != ascii_lower(c[1]) || ascii_lower(x[2]) != ascii_lower(c[2]) || ascii_lower(x[3]) != ascii_lower(c[3]) || ascii_lower(x[4]) != ascii_lower(c[4]) || ascii_lower(x[5]) != ascii_lower(c[5]) || ascii_lower(x[6]) != ascii_lower(c[6]) || ascii_lower(x[7]) != ascii_lower(c[7]) || ascii_lower(x[8]) != ascii_lower(c[8]));
        }
    }
    lemma_first_mime_entry_is(c, 1, 0);
}

proof fn lemma_mime_image_gif()
    ensures
        spec_extension_from_mime("image/gif"@) == ".gif"@,
{
    reveal_strlit("image/jpeg");
    reveal_strlit("image/png");
    reveal_strlit("image/gif");
    reveal_strlit(".gif");
    let c = "image/gif"@;
    assert(mime_to_ext(2).0 =~= c);
    assert forall|i: int| 0 <= i < c.len() implies #[trigger] c[i] != ';' && !is_unicode_whitespace(c[i]) by {}
    lemma_plain_cut_trim(c);
    lemma_eq_ignore_case_equiv(c, c, c);
    assert forall|m: int| 0 <= m < 2 implies !#[trigger] eq_ignore_ascii_case(mime_to_ext(m).0, c) by {
        let x = mime_to_ext(m).0;
        if x.len() == c.len() {
            assert(ascii_lower(x[0]) != ascii_lower(c[0]) || ascii_lower(x[1]) != ascii_lower(c[1]) || ascii_lower(x[2]) != ascii_lower(c[2]) || ascii_lower(x[3]) != ascii_lower(c[3]) || ascii_lower(x[4]) != ascii_lower(c[4]) || ascii_lower(x[5]) != ascii_lower(c[5]) || ascii_lower(x[6]) != ascii_lower(c[6]) || ascii_lower(x[7]) != ascii_lower(c[7]) || ascii_lower(x[8]) != ascii_lower(c[8]));
        }
    }
    lemma_first_mime_entry_is(c, 2, 0);
}

proof fn lemma_mime_image_webp()
    ensures
        spec_extension_from_mime("image/webp"@) == ".webp"@,
{
    reveal_strlit("image/jpeg");
    reveal_strlit("image/png");
    reveal_strlit("image/gif");
    reveal_strlit("image/webp");
    reveal_strlit(".webp");
    let c = "image/webp"@;
    assert(mime_to_ext(3).0 =~= c);
    assert forall|i: int| 0 <= i < c.len() implies #[trigger] c[i] != ';' && !is_unicode_whitespace(c[i]) by {}
    lemma_plain_cut_trim(c);
    lemma_eq_ignore_case_equiv(c, c, c);
    assert forall|m: int| 0 <= m < 3 implies !#[trigger] eq_ignore_ascii_case(mime_to_ext(m).0, c) by {
        let x = mime_to_ext(m).0;
        if x.len() == c.len() {
            assert(ascii_lower(x[0]) != ascii_lower(c[0]) || ascii_lower(x[1]) != ascii_lower(c[1]) || ascii_lower(x[2]) != ascii_lower(c[2]) || ascii_lower(x[3]) != ascii_lower(c[3]) || ascii_lower(x[4]) != ascii_lower(c[4]) || ascii_lower(x[5]) != ascii_lower(c[5]) || ascii_lower(x[6]) != ascii_lower(c[6]) || ascii_lower(x[7]) != ascii_lower(c[7]) || ascii_lower(x[8]) != ascii_lower(c[8]) || ascii_lower(x[9]) != ascii_lower(c[9]));
        }
    }
    lemma_first_mime_entry_is(c, 3, 0);
}

proof fn lemma_mime_image_bmp()
    ensures
        spec_extension_from_mime("image/bmp"@) == ".bmp"@,
{
    reveal_strlit("image/jpeg");
    reveal_strlit("image/png");
    reveal_strlit("image/gif");
    reveal_strlit("image/webp");
    reveal_strlit("image/bmp");
    reveal_strlit(".bmp");
    let c = "image/bmp"@;
    assert(mime_to_ext(4).0 =~= c);
    assert forall|i: int| 0 <= i < c.len() implies #[trigger] c[i] != ';' && !is_unicode_whitespace(c[i]) by {}
    lemma_plain_cut_trim(c);
    lemma_eq_ignore_case_equiv(c, c, c);
    assert forall|m: int| 0 <= m < 4 implies !#[trigger] eq_ignore_ascii_case(mime_to_ext(m).0, c) by {
        let x = mime_to_ext(m).0;
        if x.len() == c.len() {
            assert(ascii_lower(x[0]) != ascii_lower(c[0]) || ascii_lower(x[1]) != ascii_lower(c[1]) || ascii_lower(x[2]) != ascii_lower(c[2]) || ascii_lower(x[3]) != ascii_lower(c[3]) || ascii_lower(x[4]) != ascii_lower(c[4]) || ascii_lower(x[5]) != ascii_lower(c[5]) || ascii_lower(x[6]) != ascii_lower(c[6]) || ascii_lower(x[7]) != ascii_lower(c[7]) || ascii_lower(x[8]) != ascii_lower(c[8]));
        }
    }
    lemma_first_mime_entry_is(c, 4, 0);
}

proof fn lemma_mime_video_mp4()
    ensures
        spec_extension_from_mime("video/mp4"@) == ".mp4"@,
{
    reveal_strlit("image/jpeg");
    reveal_strlit("image/png");
    reveal_strlit("image/gif");
    reveal_strlit("image/webp");
    reveal_strlit("image/bmp");
    reveal_strlit("video/mp4");
    reveal_strlit(".mp4");
    let c = "video/mp4"@;
    assert(mime_to_ext(5).0 =~= c);
    assert forall|i: int| 0 <= i < c.len() implies #[trigger] c[i] != ';' && !is_unicode_whitespace(c[i]) by {}
    lemma_plain_cut_trim(c);
    lemma_eq_ignore_case_equiv(c, c, c);
    assert forall|m: int| 0 <= m < 5 implies !#[trigger] eq_ignore_ascii_case(mime_to_ext(m).0, c) by {
        let x = mime_to_ext(m).0;
        if x.len() == c.len() {
            assert(ascii_lower(x[0]) != ascii_lower(c[0]) || ascii_lower(x[1]) != ascii_lower(c[1]) || ascii_lower(x[2]) != ascii_lower(c[2]) || ascii_lower(x[3]) != ascii_lower(c[3]) || ascii_lower(x[4]) != ascii_lower(c[4]) || ascii_lower(x[5]) != ascii_lower(c[5]) || ascii_lower(x[6]) != ascii_lower(c[6]) || ascii_lower(x[7]) != ascii_lower(c[7]) || ascii_lower(x[8]) != ascii_lower(c[8]));
        }
    }
    lemma_first_mime_entry_is(c, 5, 0);
}

proof fn lemma_mime_video_quicktime()
    ensures
        spec_extension_from_mime("video/quicktime"@) == ".mov"@,
{
    reveal_strlit("image/jpeg");
    reveal_strlit("image/png");
    reveal_strlit("image/gif");
    reveal_strlit("image/webp");
    reveal_strlit("image/bmp");
    reveal_strlit("video/mp4");
    reveal_strlit("video/quicktime");
    reveal_strlit(".mov");
    let c = "video/quicktime"@;
    assert(mime_to_ext(6).0 =~= c);
    assert forall|i: int| 0 <= i < c.len() implies #[trigger] c[i] != ';' && !is_unicode_whitespace(c[i]) by {}
    lemma_plain_cut_trim(c);
    lemma_eq_ignore_case_equiv(c, c, c);
    assert forall|m: int| 0 <= m < 6 implies !#[trigger] eq_ignore_ascii_case(mime_to_ext(m).0, c) by {
        let x = mime_to_ext(m).0;
        if x.len() == c.len() {
            assert(ascii_lower(x[0]) != ascii_lower(c[0]) || ascii_lower(x[1]) != ascii_lower(c[1]) || ascii_lower(x[2]) != ascii_lower(c[2]) || ascii_lower(x[3]) != ascii_lower(c[3]) || ascii_lower(x[4]) != ascii_lower(c[4]) || ascii_lower(x[5]) != ascii_lower(c[5]) || ascii_lower(x[6]) != ascii_lower(c[6]) || ascii_lower(x[7]) != ascii_lower(c[7]) || ascii_lower(x[8]) != ascii_lower(c[8]) || ascii_lower(x[9]) != ascii_lower(c[9]) || ascii_lower(x[10]) != ascii_lower(c[10]) || ascii_lower(x[11]) != ascii_lower(c[11]) || ascii_lower(x[12]) != ascii_lower(c[12]) || ascii_lower(x[13]) != ascii_lower(c[13]) || ascii_lower(x[14]) != ascii_lower(c[14]));
        }
    }
    lemma_first_mime_entry_is(c, 6, 0);
}

proof fn lemma_mime_video_webm()
    ensures
        spec_extension_from_mime("video/webm"@) == ".webm"@,
{
    reveal_strlit("image/jpeg");
    reveal_strlit("image/png");
    reveal_strlit("image/gif");
    reveal_strlit("image/webp");
    reveal_strlit("image/bmp");
    reveal_strlit("video/mp4");
    reveal_strlit("video/quicktime");
    reveal_strlit("video/webm");
    reveal_strlit(".webm");
    let c = "video/webm"@;
    assert(mime_to_ext(7).0 =~= c);
    assert forall|i: int| 0 <= i < c.len() implies #[trigger] c[i] != ';' && !is_unicode_whitespace(c[i]) by {}
    lemma_plain_cut_trim(c);
    lemma_eq_ignore_case_equiv(c, c, c);
    assert forall|m: int| 0 <= m < 7 implies !#[trigger] eq_ignore_ascii_case(mime_to_ext(m).0, c) by {
        let x = mime_to_ext(m).0;
        if x.len() == c.len() {
            assert(ascii_lower(x[0]) != ascii_lower(c[0]) || ascii_lower(x[1]) != ascii_lower(c[1]) || ascii_lower(x[2]) != ascii_lower(c[2]) || ascii_lower(x[3]) != ascii_lower(c[3]) || ascii_lower(x[4]) != ascii_lower(c[4]) || ascii_lower(x[5]) != ascii_lower(c[5]) || ascii_lower(x[6]) != ascii_lower(c[6]) || ascii_lower(x[7]) != ascii_lower(c[7]) || ascii_lower(x[8]) != ascii_lower(c[8]) || ascii_lower(x[9]) != ascii_lower(c[9]));
        }
    }
    lemma_first_mime_entry_is(c, 7, 0);
}

proof fn lemma_mime_audio_mpeg()
    ensures
        spec_extension_from_mime("audio/mpeg"@) == ".mp3"@,
{
    reveal_strlit("image/jpeg");
    reveal_strlit("image/png");
    reveal_strlit("image/gif");
    reveal_strlit("image/webp");
    reveal_strlit("image/bmp");
    reveal_strlit("video/mp4");
    reveal_strlit("video/quicktime");
    reveal_strlit("video/webm");
    reveal_strlit("audio/mpeg");
    reveal_strlit(".mp3");
    let c = "audio/mpeg"@;
    assert(mime_to_ext(8).0 =~= c);
    assert forall|i: int| 0 <= i < c.len() implies #[trigger] c[i] != ';' && !is_unicode_whitespace(c[i]) by {}
    lemma_plain_cut_trim(c);
    lemma_eq_ignore_case_equiv(c, c, c);
    assert forall|m: int| 0 <= m < 8 implies !#[trigger] eq_ignore_ascii_case(mime_to_ext(m).0, c) by {
        let x = mime_to_ext(m).0;
        if x.len() == c.len() {
            assert(ascii_lower(x[0]) != ascii_lower(c[0]) || ascii_lower(x[1]) != ascii_lower(c[1]) || ascii_lower(x[2]) != ascii_lower(c[2]) || ascii_lower(x[3]) != ascii_lower(c[3]) || ascii_lower(x[4]) != ascii_lower(c[4]) || ascii_lower(x[5]) != ascii_lower(c[5]) || ascii_lower(x[6]) != ascii_lower(c[6]) || ascii_lower(x[7]) != ascii_lower(c[7]) || ascii_lower(x[8]) != ascii_lower(c[8]) || ascii_lower(x[9]) != ascii_lower(c[9]));
        }
    }
    lemma_first_mime_entry_is(c, 8, 0);
}

proof fn lemma_mime_audio_ogg()
    ensures
        spec_extension_from_mime("audio/ogg"@) == ".ogg"@,
{
    reveal_strlit("image/jpeg");
    reveal_strlit("image/png");
    reveal_strlit("image/gif");
    reveal_strlit("image/webp");
    reveal_strlit("image/bmp");
    reveal_strlit("video/mp4");
    reveal_strlit("video/quicktime");
    reveal_strlit("video/webm");
    reveal_strlit("audio/mpeg");
    reveal_strlit("audio/ogg");
    reveal_strlit(".ogg");
    let c = "audio/ogg"@;
    assert(mime_to_ext(9).0 =~= c);
    assert forall|i: int| 0 <= i < c.len() implies #[trigger] c[i] != ';' && !is_unicode_whitespace(c[i]) by {}
    lemma_plain_cut_trim(c);
    lemma_eq_ignore_case_equiv(c, c, c);
    assert forall|m: int| 0 <= m < 9 implies !#[trigger] eq_ignore_ascii_case(mime_to_ext(m).0, c) by {
        let x = mime_to_ext(m).0;
        if x.len() == c.len() {
            assert(ascii_lower(x[0]) != ascii_lower(c[0]) || ascii_lower(x[1]) != ascii_lower(c[1]) || ascii_lower(x[2]) != ascii_lower(c[2]) || ascii_lower(x[3]) != ascii_lower(c[3]) || ascii_lower(x[4]) != ascii_lower(c[4]) || ascii_lower(x[5]) != ascii_lower(c[5]) || ascii_lower(x[6]) != ascii_lower(c[6]) || ascii_lower(x[7]) != ascii_lower(c[7]) || ascii_lower(x[8]) != ascii_lower(c[8]));
        }
    }
    lemma_first_mime_entry_is(c, 9, 0);
}

proof fn lemma_mime_audio_wav()
    ensures
        spec_extension_from_mime("audio/wav"@) == ".wav"@,
{
    reveal_strlit("image/jpeg");
    reveal_strlit("image/png");
    reveal_strlit("image/gif");
    reveal_strlit("image/webp");
    reveal_strlit("image/bmp");
    reveal_strlit("video/mp4");
    reveal_strlit("video/quicktime");
    reveal_strlit("video/webm");
    reveal_strlit("audio/mpeg");
    reveal_strlit("audio/ogg");
    reveal_strlit("audio/wav");
    reveal_strlit(".wav");
    let c = "audio/wav"@;
    assert(mime_to_ext(10).0 =~= c);
    assert forall|i: int| 0 <= i < c.len() implies #[trigger] c[i] != ';' && !is_unicode_whitespace(c[i]) by {}
    lemma_plain_cut_trim(c);
    lemma_eq_ignore_case_equiv(c, c, c);
    assert forall|m: int| 0 <= m < 10 implies !#[trigger] eq_ignore_ascii_case(mime_to_ext(m).0, c) by {
        let x = mime_to_ext(m).0;
        if x.len() == c.len() {
            assert(ascii_lower(x[0]) != ascii_lower(c[0]) || ascii_lower(x[1]) != ascii_lower(c[1]) || ascii_lower(x[2]) != ascii_lower(c[2]) || ascii_lower(x[3]) != ascii_lower(c[3]) || ascii_lower(x[4]) != ascii_lower(c[4]) || ascii_lower(x[5]) != ascii_lower(c[5]) || ascii_lower(x[6]) != ascii_lower(c[6]) || ascii_lower(x[7]) != ascii_lower(c[7]) || ascii_lower(x[8]) != ascii_lower(c[8]));
        }
    }
    lemma_first_mime_entry_is(c, 10, 0);
}

proof fn lemma_mime_application_pdf()
    ensures
        spec_extension_from_mime("application/pdf"@) == ".pdf"@,
{
    reveal_strlit("image/jpeg");
    reveal_strlit("image/png");
    reveal_strlit("image/gif");
    reveal_strlit("image/webp");
    reveal_strlit("image/bmp");
    reveal_strlit("video/mp4");
    reveal_strlit("video/quicktime");
    reveal_strlit("video/webm");
    reveal_strlit("audio/mpeg");
    reveal_strlit("audio/ogg");
    reveal_strlit("audio/wav");
    reveal_strlit("application/pdf");
    reveal_strlit(".pdf");
    let c = "application/pdf"@;
    assert(mime_to_ext(11).0 =~= c);
    assert forall|i: int| 0 <= i < c.len() implies #[trigger] c[i] != ';' && !is_unicode_whitespace(c[i]) by {}
    lemma_plain_cut_trim(c);
    lemma_eq_ignore_case_equiv(c, c, c);
    assert forall|m: int| 0 <= m < 11 implies !#[trigger] eq_ignore_ascii_case(mime_to_ext(m).0, c) by {
        let x = mime_to_ext(m).0;
        if x.len() == c.len() {
            assert(ascii_lower(x[0]) != ascii_lower(c[0]) || ascii_lower(x[1]) != ascii_lower(c[1]) || ascii_lower(x[2]) != ascii_lower(c[2]) || ascii_lower(x[3]) != ascii_lower(c[3]) || ascii_lower(x[4]) != ascii_lower(c[4]) || ascii_lower(x[5]) != ascii_lower(c[5]) || ascii_lower(x[6]) != ascii_lower(c[6]) || ascii_lower(x[7]) != ascii_lower(c[7]) || ascii_lower(x[8]) != ascii_lower(c[8]) || ascii_lower(x[9]) != ascii_lower(c[9]) || ascii_lower(x[10]) != ascii_lower(c[10]) || ascii_lower(x[11]) != ascii_lower(c[11]) || ascii_lower(x[12]) != ascii_lower(c[12]) || ascii_lower(x[13]) != ascii_lower(c[13]) || ascii_lower(x[14]) != ascii_lower(c[14]));
        }
    }
    lemma_first_mime_entry_is(c, 11, 0);
}

proof fn lemma_mime_application_zip()
    ensures
        spec_extension_from_mime("application/zip"@) == ".zip"@,
{
    reveal_strlit("image/jpeg");
    reveal_strlit("image/png");
    reveal_strlit("image/gif");
    reveal_strlit("image/webp");
    reveal_strlit("image/bmp");
    reveal_strlit("video/mp4");
    reveal_strlit("video/quicktime");
    reveal_strlit("video/webm");
    reveal_strlit("audio/mpeg");
    reveal_strlit("audio/ogg");
    reveal_strlit("audio/wav");
    reveal_strlit("application/pdf");
    reveal_strlit("application/zip");
    reveal_strlit(".zip");
    let c = "application/zip"@;
    assert(mime_to_ext(12).0 =~= c);
    assert forall|i: int| 0 <= i < c.len() implies #[trigger] c[i] != ';' && !is_unicode_whitespace(c[i]) by {}
    lemma_plain_cut_trim(c);
    lemma_eq_ignore_case_equiv(c, c, c);
    assert forall|m: int| 0 <= m < 12 implies !#[trigger] eq_ignore_ascii_case(mime_to_ext(m).0, c) by {
        let x = mime_to_ext(m).0;
        if x.len() == c.len() {
            assert(ascii_lower(x[0]) != ascii_lower(c[0]) || ascii_lower(x[1]) != ascii_lower(c[1]) || ascii_lower(x[2]) != ascii_lower(c[2]) || ascii_lower(x[3]) != ascii_lower(c[3]) || ascii_lower(x[4]) != ascii_lower(c[4]) || ascii_lower(x[5]) != ascii_lower(c[5]) || ascii_lower(x[6]) != ascii_lower(c[6]) || ascii_lower(x[7]) != ascii_lower(c[7]) || ascii_lower(x[8]) != ascii_lower(c[8]) || ascii_lower(x[9]) != ascii_lower(c[9]) || ascii_lower(x[10]) != ascii_lower(c[10]) || ascii_lower(x[11]) != ascii_lower(c[11]) || ascii_lower(x[12]) != ascii_lower(c[12]) || ascii_lower(x[13]) != ascii_lower(c[13]) || ascii_lower(x[14]) != ascii_lower(c[14]));
        }
    }
    lemma_first_mime_entry_is(c, 12, 0);
}

proof fn lemma_mime_text_plain()
    ensures
        spec_extension_from_mime("text/plain"@) == ".txt"@,
{
    reveal_strlit("image/jpeg");
    reveal_strlit("image/png");
    reveal_strlit("image/gif");
    reveal_strlit("image/webp");
    reveal_strlit("image/bmp");
    reveal_strlit("video/mp4");
    reveal_strlit("video/quicktime");
    reveal_strlit("video/webm");
    reveal_strlit("audio/mpeg");
    reveal_strlit("audio/ogg");
    reveal_strlit("audio/wav");
    reveal_strlit("application/pdf");
    reveal_strlit("application/zip");
    reveal_strlit("text/plain");
    reveal_strlit(".txt");
    let c = "text/plain"@;
    assert(mime_to_ext(13).0 =~= c);
    assert forall|i: int| 0 <= i < c.len() implies #[trigger] c[i] != ';' && !is_unicode_whitespace(c[i]) by {}
    lemma_plain_cut_trim(c);
    lemma_eq_ignore_case_equiv(c, c, c);
    assert forall|m: int| 0 <= m < 13 implies !#[trigger] eq_ignore_ascii_case(mime_to_ext(m).0, c) by {
        let x = mime_to_ext(m).0;
        if x.len() == c.len() {
            assert(ascii_lower(x[0]) != ascii_lower(c[0]) || ascii_lower(x[1]) != ascii_lower(c[1]) || ascii_lower(x[2]) != ascii_lower(c[2]) || ascii_lower(x[3]) != ascii_lower(c[3]) || ascii_lower(x[4]) != ascii_lower(c[4]) || ascii_lower(x[5]) != ascii_lower(c[5]) || ascii_lower(x[6]) != ascii_lower(c[6]) || ascii_lower(x[7]) != ascii_lower(c[7]) || ascii_lower(x[8]) != ascii_lower(c[8]) || ascii_lower(x[9]) != ascii_lower(c[9]));
        }
    }
    lemma_first_mime_entry_is(c, 13, 0);
}

/// Every extension of the table maps to its MIME type (extensions given
/// without their dot; `mime_from_path` gives these for a path's extension).
pub proof fn lemma_extension_table()
    ensures
        spec_mime_from_extension(Some("pdf"@)) == "application/pdf"@,
        spec_mime_from_extension(Some("doc"@)) == "application/msword"@,
        spec_mime_from_extension(Some("docx"@)) == "application/vnd.openxmlformats-officedocument.wordprocessingml.document"@,
        spec_mime_from_extension(Some("xls"@)) == "application/vnd.ms-excel"@,
        spec_mime_from_extension(Some("xlsx"@)) == "application/vnd.openxmlformats-officedocument.spreadsheetml.sheet"@,
        spec_mime_from_extension(Some("ppt"@)) == "application/vnd.ms-powerpoint"@,
        spec_mime_from_extension(Some("pptx"@)) == "application/vnd.openxmlformats-officedocument.presentationml.presentation"@,
        spec_mime_from_extension(Some("txt"@)) == "text/plain"@,
        spec_mime_from_extension(Some("csv"@)) == "text/csv"@,
        spec_mime_from_extension(Some("zip"@)) == "application/zip"@,
        spec_mime_from_extension(Some("tar"@)) == "application/x-tar"@,
        spec_mime_from_extension(Some("gz"@)) == "application/gzip"@,
        spec_mime_from_extension(Some("mp3"@)) == "audio/mpeg"@,
        spec_mime_from_extension(Some("ogg"@)) == "audio/ogg"@,
        spec_mime_from_extension(Some("wav"@)) == "audio/wav"@,
        spec_mime_from_extension(Some("mp4"@)) == "video/mp4"@,
        spec_mime_from_extension(Some("mov"@)) == "video/quicktime"@,
        spec_mime_from_extension(Some("webm"@)) == "video/webm"@,
        spec_mime_from_extension(Some("mkv"@)) == "video/x-matroska"@,
        spec_mime_from_extension(Some("avi"@)) == "video/x-msvideo"@,
        spec_mime_from_extension(Some("png"@)) == "image/png"@,
        spec_mime_from_extension(Some("jpg"@)) == "image/jpeg"@,
        spec_mime_from_extension(Some("jpeg"@)) == "image/jpeg"@,
        spec_mime_from_extension(Some("gif"@)) == "image/gif"@,
        spec_mime_from_extension(Some("webp"@)) == "image/webp"@,
        spec_mime_from_extension(Some("bmp"@)) == "image/bmp"@,
{
    lemma_extension_pdf();
    lemma_extension_doc();
    lemma_extension_docx();
    lemma_extension_xls();
    lemma_extension_xlsx();
    lemma_extension_ppt();
    lemma_extension_pptx();
    lemma_extension_txt();
    lemma_extension_csv();
    lemma_extension_zip();
    lemma_extension_tar();
    lemma_extension_gz();
    lemma_extension_mp3();
    lemma_extension_ogg();
    lemma_extension_wav();
    lemma_extension_mp4();
    lemma_extension_mov();
    lemma_extension_webm();
    lemma_extension_mkv();
    lemma_extension_avi();
    lemma_extension_png();
    lemma_extension_jpg();
    lemma_extension_jpeg();
    lemma_extension_gif();
    lemma_extension_webp();
    lemma_extension_bmp();
}

/// Every MIME type of the table maps to its extension.
pub proof fn lemma_mime_table()
    ensures
        spec_extension_from_mime("image/jpeg"@) == ".jpg"@,
        spec_extension_from_mime("image/png"@) == ".png"@,
        spec_extension_from_mime("image/gif"@) == ".gif"@,
        spec_extension_from_mime("image/webp"@) == ".webp"@,
        spec_extension_from_mime("image/bmp"@) == ".bmp"@,
        spec_extension_from_mime("video/mp4"@) == ".mp4"@,
        spec_extension_from_mime("video/quicktime"@) == ".mov"@,
        spec_extension_from_mime("video/webm"@) == ".webm"@,
        spec_extension_from_mime("audio/mpeg"@) == ".mp3"@,
        spec_extension_from_mime("audio/ogg"@) == ".ogg"@,
        spec_extension_from_mime("audio/wav"@) == ".wav"@,
        spec_extension_from_mime("application/pdf"@) == ".pdf"@,
        spec_extension_from_mime("application/zip"@) == ".zip"@,
        spec_extension_from_mime("text/plain"@) == ".txt"@,
{
    lemma_mime_image_jpeg();
    lemma_mime_image_png();
    lemma_mime_image_gif();
    lemma_mime_image_webp();
    lemma_mime_image_bmp();
    lemma_mime_video_mp4();
    lemma_mime_video_quicktime();
    lemma_mime_video_webm();
    lemma_mime_audio_mpeg();
    lemma_mime_audio_ogg();
    lemma_mime_audio_wav();
    lemma_mime_application_pdf();
    lemma_mime_application_zip();
    lemma_mime_text_plain();
}

} // verus!
