//! Upload handling: metadata validation, upload preparation, storage paths,
//! checksums, and search filters over upload records.
use vstd::prelude::*;

use crate::json::json_opt_dec;
use crate::json::json_opt_str;
use crate::json::json_quoted;
use crate::json::push_dec_i64;
use crate::json::push_json_opt_dec;
use crate::json::push_json_opt_str;
use crate::json::push_json_str;
use crate::json::spec_dec_signed;
use crate::text::ascii_ieq;
use crate::text::chars_vec;
use crate::text::contains_chars;
use crate::text::eq_ignore_ascii_chars;
use crate::text::is_ascii_digit;
use crate::text::spec_contains;
use crate::utils::lower_of;
use crate::utils::spec_has_allowed_extension;
use crate::utils::spec_file_extension;
use crate::utils::spec_sanitize_filename;
use crate::utils::to_lowercase;
use crate::utils::ValidationResult;
use crate::utils::MAX_FILE_SIZE_BYTES;
use crate::ProjectionFile;

verus! {

/// The outcome of preparing an upload, handed back to the host layer.
pub struct FileUploadResult {
    pub success: bool,
    pub message: String,
    pub file_id: Option<String>,
    pub storage_path: Option<String>,
}

impl FileUploadResult {
    pub fn new(
        success: bool,
        message: String,
        file_id: Option<String>,
        storage_path: Option<String>,
    ) -> (r: FileUploadResult)
        ensures
            r.success == success,
            r.message == message,
            r.file_id == file_id,
            r.storage_path == storage_path,
    {
        FileUploadResult { success, message, file_id, storage_path }
    }

    pub fn success(&self) -> (r: bool)
        ensures
            r == self.success,
    {
        self.success
    }

    pub fn message(&self) -> (r: String)
        ensures
            r == self.message,
    {
        self.message.clone()
    }

    pub fn file_id(&self) -> (r: Option<String>)
        ensures
            r == self.file_id,
    {
        self.file_id.clone()
    }

    pub fn storage_path(&self) -> (r: Option<String>)
        ensures
            r == self.storage_path,
    {
        self.storage_path.clone()
    }
}

/// What is known about an upload before it is stored.
pub struct FileMetadata {
    pub filename: String,
    pub file_size: i64,
    pub file_type: String,
    pub mime_type: String,
    pub checksum: Option<String>,
}

impl FileMetadata {
    pub fn new(
        filename: String,
        file_size: i64,
        file_type: String,
        mime_type: String,
        checksum: Option<String>,
    ) -> (r: FileMetadata)
        ensures
            r.filename == filename,
            r.file_size == file_size,
            r.file_type == file_type,
            r.mime_type == mime_type,
            r.checksum == checksum,
    {
        FileMetadata { filename, file_size, file_type, mime_type, checksum }
    }

    pub fn filename(&self) -> (r: String)
        ensures
            r == self.filename,
    {
        self.filename.clone()
    }

    pub fn file_size(&self) -> (r: i64)
        ensures
            r == self.file_size,
    {
        self.file_size
    }

    pub fn file_type(&self) -> (r: String)
        ensures
            r == self.file_type,
    {
        self.file_type.clone()
    }

    pub fn mime_type(&self) -> (r: String)
        ensures
            r == self.mime_type,
    {
        self.mime_type.clone()
    }

    pub fn checksum(&self) -> (r: Option<String>)
        ensures
            r == self.checksum,
    {
        self.checksum.clone()
    }
}

/// An upload that passes every check: a nonempty filename with an accepted
/// extension, and an in-range size.
pub open spec fn spec_valid_file_upload(filename: Seq<char>, file_size: int) -> bool {
    &&& filename.len() > 0
    &&& spec_has_allowed_extension(lower_of(filename))
    &&& 0 < file_size <= MAX_FILE_SIZE_BYTES
}

/// The message `validate_file_upload` reports, by the first failing check.
pub open spec fn spec_file_upload_message(filename: Seq<char>, file_size: int) -> Seq<char> {
    if filename.len() == 0 {
        "Filename is required"@
    } else if !spec_has_allowed_extension(lower_of(filename)) {
        "Invalid file type. Allowed: .litematic, .schem, .schematic, .nbt, .structure"@
    } else if file_size <= 0 {
        "File size must be greater than 0"@
    } else if file_size > MAX_FILE_SIZE_BYTES {
        "File size must be less than 50MB"@
    } else {
        "Valid file upload"@
    }
}

/// Checks an upload's metadata: filename present, an accepted extension,
/// and an in-range size.
pub fn validate_file_upload(metadata: &FileMetadata) -> (r: ValidationResult)
    ensures
        r.is_valid == spec_valid_file_upload(metadata.filename@, metadata.file_size as int),
        r.message@ == spec_file_upload_message(metadata.filename@, metadata.file_size as int),
{
    let filename = metadata.filename();
    if filename.as_str().is_empty() {
        return ValidationResult::new(false, String::from_str("Filename is required"));
    }
    let type_validation = crate::validate_file_type(filename.as_str());
    if !type_validation.is_valid() {
        return type_validation;
    }
    let size_validation = crate::validate_file_size(metadata.file_size());
    if !size_validation.is_valid() {
        return size_validation;
    }
    ValidationResult::new(true, String::from_str("Valid file upload"))
}

/// Sanitizes and checks an upload, and on success mints the upload record:
/// a six-digit file identifier and its storage path.
pub fn prepare_file_upload(
    filename: &str,
    file_size: i64,
    file_type: &str,
    upload_ip: &str,
    user_id: Option<String>,
) -> (r: FileUploadResult)
    ensures
        r.success == spec_valid_file_upload(
            spec_sanitize_filename(filename@),
            file_size as int,
        ),
        !r.success ==> r.message@ == spec_file_upload_message(
            spec_sanitize_filename(filename@),
            file_size as int,
        ) && r.file_id is None && r.storage_path is None,
        r.success ==> r.message@ == "File upload prepared successfully"@,
        r.success ==> match r.file_id {
            Option::Some(fid) => fid@.len() == 6 && forall|i: int|
                0 <= i < 6 ==> is_ascii_digit(#[trigger] fid@[i]),
            Option::None => false,
        },
        r.success ==> match (r.file_id, r.storage_path) {
            (Option::Some(fid), Option::Some(sp)) => sp@ == "projections/"@ + fid@.subrange(0, 2)
                + "/"@ + fid@,
            _ => false,
        },
{
    let sanitized_filename = crate::sanitize_filename(filename);
    let metadata = FileMetadata::new(
        sanitized_filename.clone(),
        file_size,
        String::from_str(file_type),
        get_mime_type(sanitized_filename.as_str()),
        None,
    );
    let validation = validate_file_upload(&metadata);
    if !validation.is_valid() {
        return FileUploadResult::new(false, validation.message(), None, None);
    }
    let projection_file = ProjectionFile::new(
        sanitized_filename,
        file_size,
        String::from_str(file_type),
        String::from_str(upload_ip),
        user_id,
    );
    FileUploadResult::new(
        true,
        String::from_str("File upload prepared successfully"),
        Some(projection_file.file_id()),
        Some(projection_file.storage_path()),
    )
}

/// The MIME type reported for stored projection files: every accepted
/// format is served as a generic binary stream.
pub fn get_mime_type(filename: &str) -> (r: String)
    ensures
        r@ == "application/octet-stream"@,
{
    let _ = filename;
    String::from_str("application/octet-stream")
}

/// Builds the storage path for a stored file: `projections/`, the first two
/// characters of the identifier, a slash, the identifier, and the
/// lowercased extension of the original filename.
pub fn generate_storage_path(file_id: &str, filename: &str) -> (r: String)
    requires
        file_id@.len() >= 2,
        file_id@[0] <= '\u{7f}',
        file_id@[1] <= '\u{7f}',
    ensures
        r@ == "projections/"@ + file_id@.subrange(0, 2) + "/"@ + file_id@ + spec_file_extension(
            filename@,
        ),
{
    let extension = crate::get_file_extension(filename);
    let prefix = file_id.substring_char(0, 2);
    let mut out = String::from_str("projections/");
    out.append(prefix);
    out.append("/");
    out.append(file_id);
    out.append(extension.as_str());
    proof {
        assert(out@ =~= "projections/"@ + file_id@.subrange(0, 2) + "/"@ + file_id@
            + spec_file_extension(filename@));
    }
    out
}

/// Computes the checksum recorded for uploaded bytes: SHA-256, rendered as
/// base64.
pub fn calculate_file_checksum(data: &[u8]) -> (r: String)
    ensures
        r@ == crate::spec_base64(crate::sha256_of(data@)),
        r@.len() == 44,
{
    let digest = crate::sha256(data);
    let r = crate::b64_encode(digest.as_slice());
    proof {
        crate::lemma_base64_len(digest@);
    }
    r
}

/// Whether `expected_checksum` is the checksum of `data`, as
/// `calculate_file_checksum` computes it.
pub fn verify_file_checksum(data: &[u8], expected_checksum: &str) -> (r: bool)
    ensures
        r == (expected_checksum@ == crate::spec_base64(crate::sha256_of(data@))),
{
    let computed = calculate_file_checksum(data);
    let given = String::from_str(expected_checksum);
    computed.eq(&given)
}

/// Search criteria over upload records. The date bounds are carried but not
/// applied by `matches_file_filter`.
pub struct FileFilter {
    pub file_type: Option<String>,
    pub min_size: Option<i64>,
    pub max_size: Option<i64>,
    pub date_from: Option<String>,
    pub date_to: Option<String>,
    pub search_term: Option<String>,
}

impl FileFilter {
    /// An empty filter, matching every record.
    pub fn new() -> (r: FileFilter)
        ensures
            r.file_type is None,
            r.min_size is None,
            r.max_size is None,
            r.date_from is None,
            r.date_to is None,
            r.search_term is None,
    {
        FileFilter {
            file_type: None,
            min_size: None,
            max_size: None,
            date_from: None,
            date_to: None,
            search_term: None,
        }
    }

    pub fn set_file_type(&mut self, file_type: Option<String>)
        ensures
            final(self).file_type == file_type,
            final(self).min_size == old(self).min_size,
            final(self).max_size == old(self).max_size,
            final(self).date_from == old(self).date_from,
            final(self).date_to == old(self).date_to,
            final(self).search_term == old(self).search_term,
    {
        self.file_type = file_type;
    }

    pub fn set_size_range(&mut self, min_size: Option<i64>, max_size: Option<i64>)
        ensures
            final(self).min_size == min_size,
            final(self).max_size == max_size,
            final(self).file_type == old(self).file_type,
            final(self).date_from == old(self).date_from,
            final(self).date_to == old(self).date_to,
            final(self).search_term == old(self).search_term,
    {
        self.min_size = min_size;
        self.max_size = max_size;
    }

    pub fn set_date_range(&mut self, date_from: Option<String>, date_to: Option<String>)
        ensures
            final(self).date_from == date_from,
            final(self).date_to == date_to,
            final(self).file_type == old(self).file_type,
            final(self).min_size == old(self).min_size,
            final(self).max_size == old(self).max_size,
            final(self).search_term == old(self).search_term,
    {
        self.date_from = date_from;
        self.date_to = date_to;
    }

    pub fn set_search_term(&mut self, search_term: Option<String>)
        ensures
            final(self).search_term == search_term,
            final(self).file_type == old(self).file_type,
            final(self).min_size == old(self).min_size,
            final(self).max_size == old(self).max_size,
            final(self).date_from == old(self).date_from,
            final(self).date_to == old(self).date_to,
    {
        self.search_term = search_term;
    }
}

/// Whether a record passes a filter: the type compared up to ASCII case,
/// the size within the given bounds, and the lowercased search term
/// occurring in the lowercased filename. The date bounds are not applied.
pub open spec fn spec_matches_file_filter(file: ProjectionFile, filter: FileFilter) -> bool {
    &&& match filter.file_type {
        Option::Some(t) => ascii_ieq(file.file_type@, t@),
        Option::None => true,
    }
    &&& match filter.min_size {
        Option::Some(m) => file.file_size >= m,
        Option::None => true,
    }
    &&& match filter.max_size {
        Option::Some(m) => file.file_size <= m,
        Option::None => true,
    }
    &&& match filter.search_term {
        Option::Some(t) => spec_contains(lower_of(file.filename@), lower_of(t@)),
        Option::None => true,
    }
}

/// Applies a filter to one upload record.
pub fn matches_file_filter(file: &ProjectionFile, filter: &FileFilter) -> (r: bool)
    ensures
        r == spec_matches_file_filter(*file, *filter),
{
    match &filter.file_type {
        Option::Some(file_type) => {
            let a = chars_vec(file.file_type.as_str());
            let b = chars_vec(file_type.as_str());
            if !eq_ignore_ascii_chars(&a, &b) {
                return false;
            }
        },
        Option::None => {},
    }
    match &filter.min_size {
        Option::Some(min_size) => {
            if file.file_size < *min_size {
                return false;
            }
        },
        Option::None => {},
    }
    match &filter.max_size {
        Option::Some(max_size) => {
            if file.file_size > *max_size {
                return false;
            }
        },
        Option::None => {},
    }
    match &filter.search_term {
        Option::Some(search_term) => {
            let search_lower = to_lowercase(search_term.as_str());
            let name_lower = to_lowercase(file.filename.as_str());
            let hay = chars_vec(name_lower.as_str());
            let needle = chars_vec(search_lower.as_str());
            if !contains_chars(&hay, &needle) {
                return false;
            }
        },
        Option::None => {},
    }
    true
}

/// Aggregate numbers over a set of upload records; the per-type breakdown
/// is carried as a JSON string prepared by the host layer.
pub struct FileStats {
    pub total_files: i32,
    pub total_size: i64,
    pub by_type: String,
}

impl FileStats {
    pub fn new(total_files: i32, total_size: i64, by_type: String) -> (r: FileStats)
        ensures
            r.total_files == total_files,
            r.total_size == total_size,
            r.by_type == by_type,
    {
        FileStats { total_files, total_size, by_type }
    }

    pub fn total_files(&self) -> (r: i32)
        ensures
            r == self.total_files,
    {
        self.total_files
    }

    pub fn total_size(&self) -> (r: i64)
        ensures
            r == self.total_size,
    {
        self.total_size
    }

    pub fn by_type(&self) -> (r: String)
        ensures
            r == self.by_type,
    {
        self.by_type.clone()
    }
}

/// The compact JSON rendering of upload metadata, fields in declaration
/// order.
pub open spec fn spec_file_metadata_json(m: FileMetadata) -> Seq<char> {
    "{\"filename\":"@ + json_quoted(m.filename@) + ",\"file_size\":"@ + spec_dec_signed(
        m.file_size as int,
    ) + ",\"file_type\":"@ + json_quoted(m.file_type@) + ",\"mime_type\":"@ + json_quoted(
        m.mime_type@,
    ) + ",\"checksum\":"@ + json_opt_str(m.checksum) + "}"@
}

/// Serializes upload metadata as compact JSON.
pub fn file_metadata_to_json(metadata: &FileMetadata) -> (r: String)
    ensures
        r@ == spec_file_metadata_json(*metadata),
{
    let mut out = String::from_str("{\"filename\":");
    push_json_str(&mut out, metadata.filename.as_str());
    out.append(",\"file_size\":");
    push_dec_i64(&mut out, metadata.file_size);
    out.append(",\"file_type\":");
    push_json_str(&mut out, metadata.file_type.as_str());
    out.append(",\"mime_type\":");
    push_json_str(&mut out, metadata.mime_type.as_str());
    out.append(",\"checksum\":");
    push_json_opt_str(&mut out, &metadata.checksum);
    out.append("}");
    proof {
        assert(out@ =~= spec_file_metadata_json(*metadata));
    }
    out
}

/// The compact JSON rendering of a filter, fields in declaration order.
pub open spec fn spec_file_filter_json(f: FileFilter) -> Seq<char> {
    "{\"file_type\":"@ + json_opt_str(f.file_type) + ",\"min_size\":"@ + json_opt_dec(f.min_size)
        + ",\"max_size\":"@ + json_opt_dec(f.max_size) + ",\"date_from\":"@ + json_opt_str(
        f.date_from,
    ) + ",\"date_to\":"@ + json_opt_str(f.date_to) + ",\"search_term\":"@ + json_opt_str(
        f.search_term,
    ) + "}"@
}

/// Serializes a filter as compact JSON.
pub fn file_filter_to_json(filter: &FileFilter) -> (r: String)
    ensures
        r@ == spec_file_filter_json(*filter),
{
    let mut out = String::from_str("{\"file_type\":");
    push_json_opt_str(&mut out, &filter.file_type);
    out.append(",\"min_size\":");
    push_json_opt_dec(&mut out, &filter.min_size);
    out.append(",\"max_size\":");
    push_json_opt_dec(&mut out, &filter.max_size);
    out.append(",\"date_from\":");
    push_json_opt_str(&mut out, &filter.date_from);
    out.append(",\"date_to\":");
    push_json_opt_str(&mut out, &filter.date_to);
    out.append(",\"search_term\":");
    push_json_opt_str(&mut out, &filter.search_term);
    out.append("}");
    proof {
        assert(out@ =~= spec_file_filter_json(*filter));
    }
    out
}

} // verus!
