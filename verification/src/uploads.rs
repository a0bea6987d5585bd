//! Uploaded files: safe names, storage keys, and whether an upload is a ZIP
//! archive to unpack or a single document (OOXML documents are ZIP
//! containers but are never unpacked).
use vstd::prelude::*;
use crate::archive::{
    entry_failure_message, entry_model, zip_entry, zip_entry_count, zip_entry_is_dir,
    zip_entry_opens, zip_entry_readable, zip_error_message, zip_len, zip_opens, zip_read_entry,
    ArchiveEntry,
    EntryModel,
};
use crate::config::AppConfig;
use crate::error::{invalid_field, is_invalid_field, GatewayError};
use crate::ids::{compute_sha256, hex_encode, hex_lower, sha256_digest};
use crate::text::{
    after_last_dot, eq_ignore_ascii_case, lemma_extension_after_stem, lower_char, lower_seq, opt_view,
    eq_ignore_case, extension_of, is_ascii_alnum, push_char,
};

verus! {

/// A file received in an upload request.
#[derive(Debug, Clone)]
pub struct UploadedFile {
    pub bytes: Vec<u8>,
    pub name: Option<String>,
    pub content_type: Option<String>,
}

/// Characters kept as they are in a sanitized file name.
pub open spec fn is_safe_name_char(c: char) -> bool {
    is_ascii_alnum(c) || c == '.' || c == '-' || c == '_'
}

/// `name` with every character outside `[A-Za-z0-9._-]` replaced by `_`.
pub open spec fn sanitized(name: Seq<char>) -> Seq<char> {
    name.map_values(|c: char| if is_safe_name_char(c) { c } else { '_' })
}

/// Replaces every character outside `[A-Za-z0-9._-]` by `_`.
pub fn sanitize_filename(name: &str) -> (clean: String)
    ensures
        clean@ == sanitized(name@),
{
    let n = name.unicode_len();
    let mut clean = String::new();
    let mut i: usize = 0;
    while i < n
        invariant
            n == name@.len(),
            i <= n,
            clean@ == sanitized(name@.subrange(0, i as int)),
        decreases n - i,
    {
        let ch = name.get_char(i);
        let keep = ('0' <= ch && ch <= '9') || ('a' <= ch && ch <= 'z') || ('A' <= ch && ch <= 'Z')
            || ch == '.' || ch == '-' || ch == '_';
        if keep {
            push_char(&mut clean, ch);
        } else {
            push_char(&mut clean, '_');
        }
        assert(sanitized(name@.subrange(0, i + 1)) =~= sanitized(name@.subrange(0, i as int)).push(
            if is_safe_name_char(ch) { ch } else { '_' },
        ));
        i = i + 1;
    }
    assert(name@.subrange(0, n as int) =~= name@);
    clean
}

/// Sanitizing keeps the number of characters, leaves only safe characters,
/// and changes nothing the second time.
pub proof fn law_sanitize_filename(name: Seq<char>)
    ensures
        sanitized(name).len() == name.len(),
        forall|i: int| 0 <= i < name.len() ==> is_safe_name_char(#[trigger] sanitized(name)[i]),
        sanitized(sanitized(name)) == sanitized(name),
{
    assert(sanitized(sanitized(name)) =~= sanitized(name));
}

/// The text of the first two bytes of `s`, which `&s[..2]` takes; `None` when
/// byte 2 is not a character boundary (where slicing panics).
pub open spec fn first_two_bytes(s: Seq<char>) -> Option<Seq<char>> {
    if s.len() >= 2 && (s[0] as u32) < 0x80 && (s[1] as u32) < 0x80 {
        Some(s.take(2))
    } else if s.len() >= 1 && 0x80 <= (s[0] as u32) && (s[0] as u32) < 0x800 {
        Some(s.take(1))
    } else {
        None
    }
}

/// `ingest/<first two bytes of sha_hex>/<sha_hex>/<filename>`, under
/// `input_prefix` when that is not empty.
pub open spec fn ingest_key(input_prefix: Seq<char>, sha_hex: Seq<char>, filename: Seq<char>) -> Seq<char> {
    let suffix = "ingest/"@ + first_two_bytes(sha_hex)->0 + "/"@ + sha_hex + "/"@ + filename;
    if input_prefix.len() == 0 {
        suffix
    } else {
        input_prefix + "/"@ + suffix
    }
}

/// The storage key for an uploaded file.
pub fn compose_ingest_key(config: &AppConfig, sha_hex: &str, filename: &str) -> (key: String)
    requires
        first_two_bytes(sha_hex@) is Some,
    ensures
        key@ == ingest_key(config.input_prefix@, sha_hex@, filename@),
{
    let n = sha_hex.unicode_len();
    let c0 = sha_hex.get_char(0);
    let shard = if (c0 as u32) < 0x80 {
        sha_hex.substring_char(0, 2)
    } else {
        sha_hex.substring_char(0, 1)
    };
    let mut suffix = String::from_str("ingest/");
    suffix.append(shard);
    suffix.append("/");
    suffix.append(sha_hex);
    suffix.append("/");
    suffix.append(filename);
    if config.input_prefix.as_str().is_empty() {
        suffix
    } else {
        let mut key = config.input_prefix.clone();
        key.append("/");
        key.append(suffix.as_str());
        key
    }
}

/// `s` holds no `/`.
pub open spec fn has_no_slash(s: Seq<char>) -> bool {
    forall|i: int| 0 <= i < s.len() ==> s[i] != '/'
}

/// Text that holds no `/` before a `/` can be read back: the parts before
/// and after that first `/` are determined by the whole.
proof fn lemma_split_at_first_slash(a: Seq<char>, b: Seq<char>, c: Seq<char>, d: Seq<char>)
    requires
        has_no_slash(a),
        has_no_slash(c),
        a + seq!['/'] + b == c + seq!['/'] + d,
    ensures
        a == c,
        b == d,
{
    let x = a + seq!['/'] + b;
    let y = c + seq!['/'] + d;
    if a.len() < c.len() {
        assert(x[a.len() as int] == '/');
        assert(y[a.len() as int] == c[a.len() as int]);
    }
    if c.len() < a.len() {
        assert(y[c.len() as int] == '/');
        assert(x[c.len() as int] == a[c.len() as int]);
    }
    assert(a =~= x.take(a.len() as int));
    assert(c =~= y.take(c.len() as int));
    assert(b =~= x.skip(a.len() as int + 1));
    assert(d =~= y.skip(c.len() as int + 1));
}

/// Two uploads with different (digest, file name) pairs never share a
/// storage key, under one configuration, when the digests hold no `/` (a hex
/// digest holds none).
pub proof fn law_ingest_key_injective(
    input_prefix: Seq<char>,
    sha1: Seq<char>,
    name1: Seq<char>,
    sha2: Seq<char>,
    name2: Seq<char>,
)
    requires
        first_two_bytes(sha1) is Some,
        first_two_bytes(sha2) is Some,
        has_no_slash(sha1),
        has_no_slash(sha2),
        ingest_key(input_prefix, sha1, name1) == ingest_key(input_prefix, sha2, name2),
    ensures
        sha1 == sha2,
        name1 == name2,
{
    reveal_strlit("/");
    let shard1 = first_two_bytes(sha1)->0;
    let shard2 = first_two_bytes(sha2)->0;
    let suffix1 = "ingest/"@ + shard1 + "/"@ + sha1 + "/"@ + name1;
    let suffix2 = "ingest/"@ + shard2 + "/"@ + sha2 + "/"@ + name2;
    if input_prefix.len() == 0 {
        assert(suffix1 == suffix2);
    } else {
        let head = input_prefix + "/"@;
        assert(suffix1 =~= (head + suffix1).skip(head.len() as int));
        assert(suffix2 =~= (head + suffix2).skip(head.len() as int));
        assert(head + suffix1 =~= ingest_key(input_prefix, sha1, name1));
        assert(head + suffix2 =~= ingest_key(input_prefix, sha2, name2));
    }
    let n = "ingest/"@.len() as int;
    let rest1 = shard1 + seq!['/'] + (sha1 + seq!['/'] + name1);
    let rest2 = shard2 + seq!['/'] + (sha2 + seq!['/'] + name2);
    assert(rest1 =~= suffix1.skip(n));
    assert(rest2 =~= suffix2.skip(n));
    assert(has_no_slash(shard1));
    assert(has_no_slash(shard2));
    lemma_split_at_first_slash(shard1, sha1 + seq!['/'] + name1, shard2, sha2 + seq!['/'] + name2);
    lemma_split_at_first_slash(sha1, name1, sha2, name2);
}

/// `ct` is one of the ZIP media types, ignoring ASCII case.
pub open spec fn is_zip_mime(ct: Seq<char>) -> bool {
    ||| eq_ignore_case(ct, "application/zip"@)
    ||| eq_ignore_case(ct, "application/x-zip-compressed"@)
}

/// `ct` is one of the OOXML (Office Open XML) media types, ignoring ASCII case.
pub open spec fn is_ooxml_mime(ct: Seq<char>) -> bool {
    ||| eq_ignore_case(ct, "application/vnd.openxmlformats-officedocument.wordprocessingml.document"@)
    ||| eq_ignore_case(ct, "application/vnd.ms-word.document.macroenabled.12"@)
    ||| eq_ignore_case(ct, "application/vnd.openxmlformats-officedocument.wordprocessingml.template"@)
    ||| eq_ignore_case(ct, "application/vnd.ms-word.template.macroenabled.12"@)
    ||| eq_ignore_case(ct, "application/vnd.openxmlformats-officedocument.spreadsheetml.sheet"@)
    ||| eq_ignore_case(ct, "application/vnd.ms-excel.sheet.macroenabled.12"@)
    ||| eq_ignore_case(ct, "application/vnd.openxmlformats-officedocument.spreadsheetml.template"@)
    ||| eq_ignore_case(ct, "application/vnd.ms-excel.template.macroenabled.12"@)
    ||| eq_ignore_case(ct, "application/vnd.openxmlformats-officedocument.presentationml.presentation"@)
    ||| eq_ignore_case(ct, "application/vnd.ms-powerpoint.presentation.macroenabled.12"@)
}

/// `ext` is one of the OOXML file extensions, ignoring ASCII case.
pub open spec fn is_ooxml_ext(ext: Seq<char>) -> bool {
    ||| eq_ignore_case(ext, "docx"@)
    ||| eq_ignore_case(ext, "docm"@)
    ||| eq_ignore_case(ext, "dotx"@)
    ||| eq_ignore_case(ext, "dotm"@)
    ||| eq_ignore_case(ext, "xlsx"@)
    ||| eq_ignore_case(ext, "xlsm"@)
    ||| eq_ignore_case(ext, "xltx"@)
    ||| eq_ignore_case(ext, "xltm"@)
    ||| eq_ignore_case(ext, "pptx"@)
    ||| eq_ignore_case(ext, "pptm"@)
}

/// The name ends in an OOXML extension (the text after its last `.`).
pub open spec fn spec_ooxml_extension_in_name(name: Seq<char>) -> bool {
    match after_last_dot(name) {
        Some(ext) => is_ooxml_ext(ext),
        None => false,
    }
}

/// The upload is an OOXML document, by media type or by file extension.
pub open spec fn spec_is_ooxml_upload(file: UploadedFile) -> bool {
    (file.content_type matches Some(ct) && is_ooxml_mime(ct@))
        || (file.name matches Some(name) && spec_ooxml_extension_in_name(name@))
}

/// The bytes start with the ZIP local-file signature `PK\x03\x04` and go on.
pub open spec fn has_zip_magic(bytes: Seq<u8>) -> bool {
    bytes.len() > 4 && bytes[0] == 0x50 && bytes[1] == 0x4b && bytes[2] == 0x03 && bytes[3] == 0x04
}

/// The upload is a ZIP archive to unpack: not an OOXML document, and a ZIP
/// media type or ZIP signature.
pub open spec fn spec_is_zip_upload(file: UploadedFile) -> bool {
    !spec_is_ooxml_upload(file) && ((file.content_type matches Some(ct) && is_zip_mime(ct@))
        || has_zip_magic(file.bytes@))
}

fn is_zip_mime_type(ct: &str) -> (r: bool)
    ensures
        r == is_zip_mime(ct@),
{
    eq_ignore_ascii_case(ct, "application/zip") || eq_ignore_ascii_case(
        ct,
        "application/x-zip-compressed",
    )
}

fn is_ooxml_mime_type(ct: &str) -> (r: bool)
    ensures
        r == is_ooxml_mime(ct@),
{
    eq_ignore_ascii_case(ct, "application/vnd.openxmlformats-officedocument.wordprocessingml.document")
        || eq_ignore_ascii_case(ct, "application/vnd.ms-word.document.macroenabled.12")
        || eq_ignore_ascii_case(ct, "application/vnd.openxmlformats-officedocument.wordprocessingml.template")
        || eq_ignore_ascii_case(ct, "application/vnd.ms-word.template.macroenabled.12")
        || eq_ignore_ascii_case(ct, "application/vnd.openxmlformats-officedocument.spreadsheetml.sheet")
        || eq_ignore_ascii_case(ct, "application/vnd.ms-excel.sheet.macroenabled.12")
        || eq_ignore_ascii_case(ct, "application/vnd.openxmlformats-officedocument.spreadsheetml.template")
        || eq_ignore_ascii_case(ct, "application/vnd.ms-excel.template.macroenabled.12")
        || eq_ignore_ascii_case(ct, "application/vnd.openxmlformats-officedocument.presentationml.presentation")
        || eq_ignore_ascii_case(ct, "application/vnd.ms-powerpoint.presentation.macroenabled.12")
}

fn is_ooxml_extension(ext: &str) -> (r: bool)
    ensures
        r == is_ooxml_ext(ext@),
{
    eq_ignore_ascii_case(ext, "docx") || eq_ignore_ascii_case(ext, "docm") || eq_ignore_ascii_case(
        ext,
        "dotx",
    ) || eq_ignore_ascii_case(ext, "dotm") || eq_ignore_ascii_case(ext, "xlsx")
        || eq_ignore_ascii_case(ext, "xlsm") || eq_ignore_ascii_case(ext, "xltx")
        || eq_ignore_ascii_case(ext, "xltm") || eq_ignore_ascii_case(ext, "pptx")
        || eq_ignore_ascii_case(ext, "pptm")
}

/// Whether the name ends in an OOXML extension, in any ASCII case.
pub fn ooxml_extension_in_name(name: &str) -> (r: bool)
    ensures
        r == spec_ooxml_extension_in_name(name@),
{
    match extension_of(name) {
        Some(extension) => is_ooxml_extension(extension),
        None => false,
    }
}

/// Whether the upload is an OOXML document.
pub fn is_ooxml_upload(file: &UploadedFile) -> (r: bool)
    ensures
        r == spec_is_ooxml_upload(*file),
{
    let mime_is_ooxml = match &file.content_type {
        Some(ct) => is_ooxml_mime_type(ct.as_str()),
        None => false,
    };
    let extension_is_ooxml = match &file.name {
        Some(name) => ooxml_extension_in_name(name.as_str()),
        None => false,
    };
    mime_is_ooxml || extension_is_ooxml
}

/// Whether the upload is a ZIP archive to unpack into its entries.
pub fn is_zip_upload(file: &UploadedFile) -> (r: bool)
    ensures
        r == spec_is_zip_upload(*file),
{
    if is_ooxml_upload(file) {
        return false;
    }
    let ct_is_zip = match &file.content_type {
        Some(ct) => is_zip_mime_type(ct.as_str()),
        None => false,
    };
    let b = &file.bytes;
    let magic_is_zip = b.len() > 4 && b[0] == 0x50u8 && b[1] == 0x4bu8 && b[2] == 0x03u8 && b[3]
        == 0x04u8;
    ct_is_zip || magic_is_zip
}

/// An OOXML document is never unpacked as an archive, whatever its media type
/// or content.
pub proof fn law_ooxml_never_unpacked(file: UploadedFile)
    ensures
        spec_is_ooxml_upload(file) ==> !spec_is_zip_upload(file),
{
}

/// `s` holds no `.`.
pub open spec fn has_no_dot(s: Seq<char>) -> bool {
    forall|i: int| 0 <= i < s.len() ==> s[i] != '.'
}

/// A text equal to a dot-free text up to ASCII case holds no `.` either.
proof fn lemma_case_variant_has_no_dot(ext: Seq<char>, lit: Seq<char>)
    requires
        eq_ignore_case(ext, lit),
        has_no_dot(lit),
    ensures
        has_no_dot(ext),
{
    assert(lower_seq(ext).len() == ext.len());
    assert(lower_seq(lit).len() == lit.len());
    assert forall|i: int| 0 <= i < ext.len() implies ext[i] != '.' by {
        assert(lower_seq(ext)[i] == lower_char(ext[i]));
        assert(lower_seq(lit)[i] == lower_char(lit[i]));
        if ext[i] == '.' {
            assert(lower_char(ext[i]) == '.');
            assert(lit[i] != '.');
            if 'A' <= lit[i] && lit[i] <= 'Z' {
                assert(lower_char(lit[i]) as u32 >= 97);
            }
        }
    }
}

/// A file named `stem.ext`, where `ext` is, in any ASCII case, one of the
/// OOXML extensions (Word `docx` `docm` `dotx` `dotm`, Excel `xlsx` `xlsm`
/// `xltx` `xltm`, PowerPoint `pptx` `pptm`), is an OOXML document, whatever
/// the stem, its media type or its content: it stays one upload item and is
/// never unpacked as an archive.
pub proof fn law_ooxml_names_stay_whole(file: UploadedFile, stem: Seq<char>, ext: Seq<char>)
    requires
        file.name matches Some(n) && n@ == stem + seq!['.'] + ext,
        eq_ignore_case(ext, "docx"@) || eq_ignore_case(ext, "docm"@) || eq_ignore_case(ext, "dotx"@)
            || eq_ignore_case(ext, "dotm"@) || eq_ignore_case(ext, "xlsx"@) || eq_ignore_case(
            ext,
            "xlsm"@,
        ) || eq_ignore_case(ext, "xltx"@) || eq_ignore_case(ext, "xltm"@) || eq_ignore_case(
            ext,
            "pptx"@,
        ) || eq_ignore_case(ext, "pptm"@),
    ensures
        spec_ooxml_extension_in_name(stem + seq!['.'] + ext),
        spec_is_ooxml_upload(file),
        !spec_is_zip_upload(file),
{
    reveal_strlit("docx");
    reveal_strlit("docm");
    reveal_strlit("dotx");
    reveal_strlit("dotm");
    reveal_strlit("xlsx");
    reveal_strlit("xlsm");
    reveal_strlit("xltx");
    reveal_strlit("xltm");
    reveal_strlit("pptx");
    reveal_strlit("pptm");
    let lit = if eq_ignore_case(ext, "docx"@) {
        "docx"@
    } else if eq_ignore_case(ext, "docm"@) {
        "docm"@
    } else if eq_ignore_case(ext, "dotx"@) {
        "dotx"@
    } else if eq_ignore_case(ext, "dotm"@) {
        "dotm"@
    } else if eq_ignore_case(ext, "xlsx"@) {
        "xlsx"@
    } else if eq_ignore_case(ext, "xlsm"@) {
        "xlsm"@
    } else if eq_ignore_case(ext, "xltx"@) {
        "xltx"@
    } else if eq_ignore_case(ext, "xltm"@) {
        "xltm"@
    } else if eq_ignore_case(ext, "pptx"@) {
        "pptx"@
    } else {
        "pptm"@
    };
    assert(has_no_dot(lit));
    lemma_case_variant_has_no_dot(ext, lit);
    lemma_extension_after_stem(stem, ext);
}

/// The digest, its hex text and the sanitized name for an uploaded file.
pub fn build_metadata(name: &str, bytes: &[u8]) -> (r: (Vec<u8>, String, String))
    ensures
        r.0@ == sha256_digest(bytes@),
        sha256_digest(bytes@).len() == 32,
        r.1@ == hex_lower(sha256_digest(bytes@)),
        r.2@ == sanitized(name@),
{
    let sha_bytes = compute_sha256(bytes);
    let sha_hex = hex_encode(sha_bytes.as_slice());
    let sanitized_name = sanitize_filename(name);
    (sha_bytes, sha_hex, sanitized_name)
}

/// Where a file to process came from.
#[derive(Debug, Clone, Copy, PartialEq, Eq, Structural)]
pub enum FileOrigin {
    /// The uploaded file itself.
    Upload,
    /// An entry of an uploaded archive.
    ArchiveEntry,
}

/// One file to store and process.
#[derive(Debug)]
pub struct WorkItem {
    pub file: UploadedFile,
    pub origin: FileOrigin,
    /// The path inside the archive, for archive entries.
    pub original_path: Option<String>,
}

/// A work item as plain values: content, name, media type, origin, path.
pub type ItemModel = (Seq<u8>, Option<Seq<char>>, Option<Seq<char>>, FileOrigin, Option<Seq<char>>);

/// The plain-value model of a work item.
pub open spec fn item_model(w: WorkItem) -> ItemModel {
    (w.file.bytes@, opt_view(w.file.name), opt_view(w.file.content_type), w.origin, opt_view(
        w.original_path,
    ))
}

/// The models of a sequence of work items.
pub open spec fn item_models(v: Seq<WorkItem>) -> Seq<ItemModel> {
    v.map_values(|w: WorkItem| item_model(w))
}

/// The models of a sequence of archive entries.
pub open spec fn entry_models(v: Seq<ArchiveEntry>) -> Seq<EntryModel> {
    v.map_values(|e: ArchiveEntry| entry_model(e))
}

/// The work item for an archive entry; directories and empty entries give
/// none. The path is the enclosed path (the raw name when there is none), the
/// file name its last component (the path when there is none).
pub open spec fn entry_item(e: EntryModel) -> Option<ItemModel> {
    if e.0 || e.4.len() == 0 {
        None
    } else {
        let safe_path = match e.2 {
            Some(p) => p,
            None => e.1,
        };
        let file_name = match e.3 {
            Some(f) => f,
            None => safe_path,
        };
        Some((e.4, Some(file_name), None, FileOrigin::ArchiveEntry, Some(safe_path)))
    }
}

/// The work items for a sequence of archive entries, in order.
pub open spec fn entry_items(es: Seq<EntryModel>) -> Seq<ItemModel>
    decreases es.len(),
{
    if es.len() == 0 {
        seq![]
    } else {
        match entry_item(es.last()) {
            Some(m) => entry_items(es.drop_last()).push(m),
            None => entry_items(es.drop_last()),
        }
    }
}

/// The entries of an archive with these bytes, as far as `zip` reads them.
pub open spec fn archive_entries(bytes: Seq<u8>) -> Seq<EntryModel> {
    Seq::new(zip_entry_count(bytes), |i: int| zip_entry(bytes, i))
}

impl WorkItem {
    /// A work item for `file`.
    pub fn new(file: UploadedFile, origin: FileOrigin, original_path: Option<String>) -> (r: Self)
        ensures
            r.file == file,
            r.origin == origin,
            r.original_path == original_path,
    {
        WorkItem { file, origin, original_path }
    }
}

/// Turns archive entries into work items, skipping directories and empty
/// entries; an archive with nothing left is refused.
pub fn work_items_from_entries(entries: Vec<ArchiveEntry>) -> (r: Result<Vec<WorkItem>, GatewayError>)
    ensures
        entry_items(entry_models(entries@)).len() == 0 ==> (r matches Err(e) && is_invalid_field(
            e,
            "file"@,
            "archive contains no files"@,
        )),
        entry_items(entry_models(entries@)).len() > 0 ==> (r matches Ok(items) && item_models(
            items@,
        ) == entry_items(entry_models(entries@))),
{
    let ghost orig = entry_models(entries@);
    let ghost total = entries@.len();
    let mut rest = entries;
    let mut items: Vec<WorkItem> = Vec::new();
    while rest.len() > 0
        invariant
            rest@.len() <= total,
            total == orig.len(),
            entry_models(rest@) == orig.subrange(total - rest@.len(), total as int),
            item_models(items@) == entry_items(orig.subrange(0, total - rest@.len())),
        decreases rest@.len(),
    {
        let ghost done = total - rest@.len();
        let ghost before = rest@;
        let entry = rest.remove(0);
        assert(entry == before[0]);
        assert(entry_models(before)[0] == entry_model(before[0]));
        assert(orig.subrange(done, total as int)[0] == orig[done]);
        assert(entry_model(entry) == orig[done]);
        assert(rest@ =~= before.subrange(1, before.len() as int));
        assert(entry_models(rest@) =~= entry_models(before).subrange(1, before.len() as int));
        assert(entry_models(rest@) =~= orig.subrange(done + 1, total as int));
        assert(orig.subrange(0, done + 1).drop_last() =~= orig.subrange(0, done));
        assert(orig.subrange(0, done + 1).last() == orig[done]);
        if !entry.is_dir && entry.data.len() > 0 {
            let ArchiveEntry { is_dir, name, enclosed_path, enclosed_file_name, data } = entry;
            let safe_path = match enclosed_path {
                Some(p) => p,
                None => name,
            };
            let file_name = match enclosed_file_name {
                Some(f) => f,
                None => safe_path.clone(),
            };
            let uploaded = UploadedFile { bytes: data, name: Some(file_name), content_type: None };
            let item = WorkItem::new(uploaded, FileOrigin::ArchiveEntry, Some(safe_path));
            let ghost prev = items@;
            items.push(item);
            assert(item_models(items@) =~= item_models(prev).push(item_model(item)));
        }
    }
    assert(orig.subrange(0, total as int) =~= orig);
    if items.len() == 0 {
        return Err(invalid_field("file", "archive contains no files"));
    }
    Ok(items)
}

/// `zip` reads the archive with these bytes: it opens, every entry opens,
/// and the content of every entry that is not a directory reads.
pub open spec fn archive_readable(bytes: Seq<u8>) -> bool {
    &&& zip_opens(bytes)
    &&& forall|i: int|
        0 <= i < zip_entry_count(bytes) ==> #[trigger] zip_entry_opens(bytes, i) && (!zip_entry(
            bytes,
            i,
        ).0 ==> zip_entry_readable(bytes, i))
}

/// Unpacks an uploaded ZIP archive into one work item per file entry, in
/// order; directories are skipped unread and empty files are left out. It
/// fails with the reader's message when `zip` cannot read the archive, and
/// refuses an archive with no file left.
#[verifier::spinoff_prover]
pub fn extract_archive_items(file: &UploadedFile) -> (r: Result<Vec<WorkItem>, GatewayError>)
    ensures
        r is Ok <==> (archive_readable(file.bytes@) && entry_items(archive_entries(file.bytes@)).len()
            > 0),
        r matches Ok(items) ==> item_models(items@) == entry_items(archive_entries(file.bytes@)),
        !archive_readable(file.bytes@) ==> (r matches Err(e) && e is Archive),
        (archive_readable(file.bytes@) && entry_items(archive_entries(file.bytes@)).len() == 0) ==> (r matches Err(
            e,
        ) && is_invalid_field(e, "file"@, "archive contains no files"@)),
{
    let count = match zip_len(file.bytes.as_slice()) {
        Ok(n) => n,
        Err(err) => return Err(GatewayError::Archive(zip_error_message(&err))),
    };
    let ghost b = file.bytes@;
    let ghost all = archive_entries(b);
    let mut entries: Vec<ArchiveEntry> = Vec::new();
    let mut index: usize = 0;
    while index < count
        invariant
            b == file.bytes@,
            zip_opens(b),
            count == zip_entry_count(b),
            all == archive_entries(b),
            index <= count,
            forall|j: int|
                0 <= j < index ==> #[trigger] zip_entry_opens(b, j) && (!zip_entry(b, j).0
                    ==> zip_entry_readable(b, j)),
            entry_items(entry_models(entries@)) == entry_items(all.subrange(0, index as int)),
        decreases count - index,
    {
        let ghost prefix = all.subrange(0, index + 1);
        assert(prefix.drop_last() =~= all.subrange(0, index as int));
        assert(prefix.last() == zip_entry(b, index as int));
        match zip_entry_is_dir(file.bytes.as_slice(), index) {
            Ok(is_dir) => {
                assert(zip_entry_opens(b, index as int));
                if is_dir {
                    assert(entry_items(prefix) == entry_items(all.subrange(0, index as int)));
                } else {
                    match zip_read_entry(file.bytes.as_slice(), index) {
                        Ok(entry) => {
                            let ghost prev = entries@;
                            entries.push(entry);
                            assert(entry_models(entries@) =~= entry_models(prev).push(entry_model(entry)));
                            assert(entry_models(entries@).drop_last() =~= entry_models(prev));
                            assert(zip_entry_readable(b, index as int));
                        },
                        Err(failure) => {
                            assert(!archive_readable(b)) by {
                                assert(!zip_entry_readable(b, index as int));
                            }
                            return Err(GatewayError::Archive(entry_failure_message(&failure)));
                        },
                    }
                }
            },
            Err(err) => {
                assert(!archive_readable(b)) by {
                    assert(!zip_entry_opens(b, index as int));
                }
                return Err(GatewayError::Archive(zip_error_message(&err)));
            },
        }
        let ghost done = index as int;
        assert(zip_entry_opens(b, done));
        assert(!zip_entry(b, done).0 ==> zip_entry_readable(b, done));
        index = index + 1;
        assert forall|j: int| 0 <= j < index implies #[trigger] zip_entry_opens(b, j) && (!zip_entry(
            b,
            j,
        ).0 ==> zip_entry_readable(b, j)) by {
            if j < done {
            } else {
                assert(j == done);
            }
        }
    }
    assert(all.subrange(0, count as int) =~= all);
    assert(archive_readable(b));
    work_items_from_entries(entries)
}

/// The work items for an upload: the entries of a ZIP archive, or the file
/// itself.
pub fn build_work_items(file: UploadedFile) -> (r: Result<Vec<WorkItem>, GatewayError>)
    ensures
        !spec_is_zip_upload(file) ==> (r matches Ok(items) && items@.len() == 1 && items@[0].file
            == file && items@[0].origin == FileOrigin::Upload && items@[0].original_path is None),
        spec_is_zip_upload(file) ==> (r is Ok <==> (archive_readable(file.bytes@) && entry_items(
            archive_entries(file.bytes@),
        ).len() > 0)),
        spec_is_zip_upload(file) ==> (r matches Ok(items) ==> item_models(items@) == entry_items(
            archive_entries(file.bytes@),
        )),
        spec_is_zip_upload(file) && !archive_readable(file.bytes@) ==> (r matches Err(e) && e is Archive),
        (spec_is_zip_upload(file) && archive_readable(file.bytes@) && entry_items(
            archive_entries(file.bytes@),
        ).len() == 0) ==> (r matches Err(e) && is_invalid_field(
            e,
            "file"@,
            "archive contains no files"@,
        )),
{
    if is_zip_upload(&file) {
        return extract_archive_items(&file);
    }
    let mut items: Vec<WorkItem> = Vec::new();
    items.push(WorkItem::new(file, FileOrigin::Upload, None));
    Ok(items)
}

} // verus!
