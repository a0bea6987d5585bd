//! The multipart form of an upload: which parts are read, how each is
//! checked, and the request the complete form makes.
use vstd::prelude::*;
use crate::error::{invalid_field, is_invalid_field, GatewayError};
use crate::ids::{uuid_text, uuid_to_string, Uuid};
use crate::numbers::{parse_bool, parse_i32, spec_parse_bool, spec_parse_i32};
use crate::text::{opt_view, str_eq};
use crate::uploads::UploadedFile;

verus! {

/// The form fields of an upload, as the response repeats them.
#[derive(Debug, Clone)]
pub struct LoadContextForm {
    /// The uploaded file's name.
    pub file: String,
    pub context_id: i32,
    pub user_id: Option<String>,
    pub dry_run: Option<bool>,
}

/// A complete upload: the form fields and the file.
#[derive(Debug)]
pub struct UploadRequest {
    pub form: LoadContextForm,
    pub file: UploadedFile,
}

impl UploadRequest {
    /// The upload as made by the authenticated user `user_id`: the user the
    /// form names is replaced by that user.
    pub fn with_user(self, user_id: Uuid) -> (r: Self)
        ensures
            r.file == self.file,
            r.form.file == self.form.file,
            r.form.context_id == self.form.context_id,
            r.form.dry_run == self.form.dry_run,
            r.form.user_id matches Some(u) && u@ == uuid_text(user_id),
    {
        let UploadRequest { form, file } = self;
        let LoadContextForm { file: name, context_id, user_id: _, dry_run } = form;
        let form = LoadContextForm { file: name, context_id, user_id: Some(uuid_to_string(user_id)), dry_run };
        UploadRequest { form, file }
    }
}

/// How a form part is read.
#[derive(Debug, Clone, Copy, PartialEq, Eq, Structural)]
pub enum FieldRead {
    /// The `file` part: its bytes, file name and media type.
    Bytes,
    /// The `user_id`, `dry_run` and `context_id` parts: their text.
    Text,
    /// Any other part, or one without a name: skipped unread.
    Skip,
}

proof fn lemma_field_names_distinct()
    ensures
        "file"@ != "user_id"@,
        "file"@ != "dry_run"@,
        "file"@ != "context_id"@,
        "user_id"@ != "dry_run"@,
        "user_id"@ != "context_id"@,
        "dry_run"@ != "context_id"@,
{
    reveal_strlit("file");
    reveal_strlit("user_id");
    reveal_strlit("dry_run");
    reveal_strlit("context_id");
    assert("user_id"@[0] != "dry_run"@[0]);
    assert("file"@.len() != "context_id"@.len());
}

/// How the part with this name is read.
pub open spec fn spec_field_read(name: Option<Seq<char>>) -> FieldRead {
    match name {
        Some(n) => if n == "file"@ {
            FieldRead::Bytes
        } else if n == "user_id"@ || n == "dry_run"@ || n == "context_id"@ {
            FieldRead::Text
        } else {
            FieldRead::Skip
        },
        None => FieldRead::Skip,
    }
}

/// How the part with this name is read.
pub fn field_read(name: Option<&str>) -> (r: FieldRead)
    ensures
        r == spec_field_read(
            match name {
                Some(n) => Some(n@),
                None => None,
            },
        ),
{
    match name {
        Some(n) => {
            if str_eq(n, "file") {
                FieldRead::Bytes
            } else if str_eq(n, "user_id") || str_eq(n, "dry_run") || str_eq(n, "context_id") {
                FieldRead::Text
            } else {
                FieldRead::Skip
            }
        },
        None => FieldRead::Skip,
    }
}

/// The parts of an upload read so far. Each part replaces what an earlier
/// part of the same name gave.
#[derive(Debug)]
pub struct UploadForm {
    pub file: Option<UploadedFile>,
    pub user_id: Option<String>,
    pub dry_run: bool,
    pub context_id: Option<i32>,
}

impl UploadForm {
    /// A form with no part read: no file, user or context, and no dry run.
    pub fn new() -> (r: Self)
        ensures
            r.file is None,
            r.user_id is None,
            !r.dry_run,
            r.context_id is None,
    {
        UploadForm { file: None, user_id: None, dry_run: false, context_id: None }
    }

    /// Takes the `file` part.
    pub fn accept_file(&mut self, bytes: Vec<u8>, name: Option<String>, content_type: Option<String>)
        ensures
            final(self).file == Some(UploadedFile { bytes, name, content_type }),
            final(self).user_id == old(self).user_id,
            final(self).dry_run == old(self).dry_run,
            final(self).context_id == old(self).context_id,
    {
        self.file = Some(UploadedFile { bytes, name, content_type });
    }

    /// Takes a text part: `user_id` as it is; `dry_run` as `true` or `false`;
    /// `context_id` as a positive integer. A value that does not read is
    /// refused, and the form stays as it was.
    pub fn accept_text(&mut self, field: &str, value: String) -> (r: Result<(), GatewayError>)
        ensures
            final(self).file == old(self).file,
            field@ == "user_id"@ ==> r is Ok && final(self).user_id == Some(value)
                && final(self).dry_run == old(self).dry_run && final(self).context_id == old(
                self,
            ).context_id,
            field@ == "dry_run"@ ==> final(self).user_id == old(self).user_id && final(self).context_id
                == old(self).context_id && match spec_parse_bool(value@) {
                Some(b) => r is Ok && final(self).dry_run == b,
                None => r matches Err(e) && is_invalid_field(e, "dry_run"@, "expected true/false"@)
                    && final(self).dry_run == old(self).dry_run,
            },
            field@ == "context_id"@ ==> final(self).user_id == old(self).user_id && final(self).dry_run
                == old(self).dry_run && match spec_parse_i32(value@) {
                Some(v) => if v > 0 {
                    r is Ok && final(self).context_id == Some(v)
                } else {
                    r matches Err(e) && is_invalid_field(e, "context_id"@, "must be positive"@)
                        && final(self).context_id == old(self).context_id
                },
                None => r matches Err(e) && is_invalid_field(e, "context_id"@, "expected integer"@)
                    && final(self).context_id == old(self).context_id,
            },
            spec_field_read(Some(field@)) != FieldRead::Text ==> r is Ok && final(self).user_id == old(
                self,
            ).user_id && final(self).dry_run == old(self).dry_run && final(self).context_id == old(
                self,
            ).context_id,
    {
        proof {
            lemma_field_names_distinct();
        }
        if str_eq(field, "user_id") {
            self.user_id = Some(value);
            Ok(())
        } else if str_eq(field, "dry_run") {
            match parse_bool(value.as_str()) {
                Some(b) => {
                    self.dry_run = b;
                    Ok(())
                },
                None => Err(invalid_field("dry_run", "expected true/false")),
            }
        } else if str_eq(field, "context_id") {
            match parse_i32(value.as_str()) {
                Some(v) => {
                    if v <= 0 {
                        Err(invalid_field("context_id", "must be positive"))
                    } else {
                        self.context_id = Some(v);
                        Ok(())
                    }
                },
                None => Err(invalid_field("context_id", "expected integer")),
            }
        } else {
            Ok(())
        }
    }

    /// The upload the form makes once every part was read: it needs a
    /// non-empty file and a context; the file's name stands in the form
    /// fields, `uploaded file` when it has none.
    pub fn finish(self) -> (r: Result<UploadRequest, GatewayError>)
        ensures
            match self.file {
                None => r matches Err(GatewayError::MissingFile),
                Some(f) => if f.bytes@.len() == 0 {
                    r matches Err(e) && is_invalid_field(e, "file"@, "uploaded file is empty"@)
                } else {
                    match self.context_id {
                        None => r matches Err(e) && is_invalid_field(
                            e,
                            "context_id"@,
                            "field is required"@,
                        ),
                        Some(c) => r matches Ok(req) && req.file == f && req.form.context_id == c
                            && req.form.user_id == self.user_id && req.form.dry_run == Some(
                            self.dry_run,
                        ) && req.form.file@ == (match opt_view(f.name) {
                            Some(n) => n,
                            None => "uploaded file"@,
                        }),
                    }
                },
            },
    {
        let UploadForm { file, user_id, dry_run, context_id } = self;
        let file = match file {
            Some(f) => f,
            None => return Err(GatewayError::MissingFile),
        };
        if file.bytes.len() == 0 {
            return Err(invalid_field("file", "uploaded file is empty"));
        }
        let context_id = match context_id {
            Some(c) => c,
            None => return Err(invalid_field("context_id", "field is required")),
        };
        let name = match &file.name {
            Some(n) => n.clone(),
            None => String::from_str("uploaded file"),
        };
        let form = LoadContextForm { file: name, context_id, user_id, dry_run: Some(dry_run) };
        Ok(UploadRequest { form, file })
    }
}

} // verus!
