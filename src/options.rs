use vstd::prelude::*;

verus! {

/// A request parameter: its camelCase name and its literal value.
pub type QueryParam = (String, String);

/// The name and value of a parameter, as sequences of characters.
pub open spec fn param_view(p: QueryParam) -> (Seq<char>, Seq<char>) {
    (p.0@, p.1@)
}

/// The names and values of a list of parameters.
pub open spec fn params_view(ps: Seq<QueryParam>) -> Seq<(Seq<char>, Seq<char>)> {
    ps.map_values(|p: QueryParam| param_view(p))
}

/// The literal a boolean is sent as.
pub open spec fn bool_text(b: bool) -> Seq<char> {
    if b {
        "true"@
    } else {
        "false"@
    }
}

/// The parameter that an optional flag gives: none when it is unset.
pub open spec fn flag_param(name: Seq<char>, v: Option<bool>) -> Seq<(Seq<char>, Seq<char>)> {
    match v {
        Some(b) => seq![(name, bool_text(b))],
        None => seq![],
    }
}

fn bool_literal(b: bool) -> (r: &'static str)
    ensures
        r@ == bool_text(b),
{
    if b {
        "true"
    } else {
        "false"
    }
}

fn push_param(params: &mut Vec<QueryParam>, name: &str, value: &str)
    ensures
        params_view(final(params)@) == params_view(old(params)@) + seq![(name@, value@)],
{
    params.push((name.to_owned(), value.to_owned()));
    assert(params_view(final(params)@) =~= params_view(old(params)@) + seq![(name@, value@)]);
}

fn push_flag(params: &mut Vec<QueryParam>, name: &str, v: Option<bool>)
    ensures
        params_view(final(params)@) == params_view(old(params)@) + flag_param(name@, v),
{
    match v {
        Some(b) => push_param(params, name, bool_literal(b)),
        None => {
            assert(params_view(old(params)@) + flag_param(name@, v) =~= params_view(old(params)@));
        },
    }
}

/// How an insert resolves a document that already has the given key.
#[derive(Debug, Clone, Copy, PartialEq, Eq, Structural)]
pub enum DocumentOverwriteMode {
    /// Keep the existing document and write nothing.
    Ignore,
    /// Replace the existing document.
    Replace,
    /// Patch the existing document with the given one.
    Update,
    /// Fail with a unique constraint violation; the server's choice when
    /// neither a mode nor the overwrite flag is set.
    Conflict,
}

/// The lowercase tag a mode is sent as.
pub open spec fn overwrite_tag(m: DocumentOverwriteMode) -> Seq<char> {
    match m {
        DocumentOverwriteMode::Ignore => "ignore"@,
        DocumentOverwriteMode::Replace => "replace"@,
        DocumentOverwriteMode::Update => "update"@,
        DocumentOverwriteMode::Conflict => "conflict"@,
    }
}

impl DocumentOverwriteMode {
    /// The lowercase tag the mode is sent as.
    pub fn tag(&self) -> (r: &'static str)
        ensures
            r@ == overwrite_tag(*self),
    {
        match self {
            DocumentOverwriteMode::Ignore => "ignore",
            DocumentOverwriteMode::Replace => "replace",
            DocumentOverwriteMode::Update => "update",
            DocumentOverwriteMode::Conflict => "conflict",
        }
    }
}

/// Each mode has its own tag, and the tags are exactly `ignore`, `replace`,
/// `update` and `conflict`.
pub proof fn lemma_overwrite_tags(a: DocumentOverwriteMode, b: DocumentOverwriteMode)
    ensures
        overwrite_tag(a) == overwrite_tag(b) ==> a == b,
        set!["ignore"@, "replace"@, "update"@, "conflict"@].contains(overwrite_tag(a)),
{
    reveal_strlit("ignore");
    reveal_strlit("replace");
    reveal_strlit("update");
    reveal_strlit("conflict");
    if overwrite_tag(a) == overwrite_tag(b) && a != b {
        assert(overwrite_tag(a).len() != overwrite_tag(b).len() || overwrite_tag(a)[0]
            != overwrite_tag(b)[0]);
    }
}

/// The parameter that an overwrite mode gives: none when it is unset or the
/// server does not support it.
pub open spec fn mode_param(supported: bool, m: Option<DocumentOverwriteMode>) -> Seq<
    (Seq<char>, Seq<char>),
> {
    match m {
        Some(mode) if supported => seq![("overwriteMode"@, overwrite_tag(mode))],
        _ => seq![],
    }
}

/// Conditions for reading a document, sent as a request header.
#[derive(Debug, PartialEq, Eq)]
pub enum DocumentReadOptions {
    /// Return the document only if its revision differs from this etag.
    IfNoneMatch(String),
    /// Return the document only if its revision is this etag.
    IfMatch(String),
    /// No condition.
    NoHeader,
}

impl Default for DocumentReadOptions {
    /// No condition.
    fn default() -> (r: Self)
        ensures
            r is NoHeader,
    {
        DocumentReadOptions::NoHeader
    }
}

/// Options for document insertion.
///
/// An unset field is left to the server's default and is not sent.
#[derive(Debug, Clone, Copy, PartialEq, Eq, Structural)]
pub struct DocumentInsertOptions {
    /// Wait until the document has been synced to disk.
    pub wait_for_sync: Option<bool>,
    /// Also return the complete new document under `new`.
    pub return_new: Option<bool>,
    /// Also return the complete old document under `old`.
    pub return_old: Option<bool>,
    /// Answer with an empty object instead of the document metadata.
    pub silent: Option<bool>,
    /// Turn the insert into a replace-insert when the key already exists.
    pub overwrite: Option<bool>,
    /// How a document with the same key is resolved; sent only to servers
    /// that support it.
    pub overwrite_mode: Option<DocumentOverwriteMode>,
}

/// The parameters that `DocumentInsertOptions` is sent as: its set fields, in order.
pub open spec fn insert_params(
    o: DocumentInsertOptions,
    mode_supported: bool,
) -> Seq<(Seq<char>, Seq<char>)> {
    flag_param("waitForSync"@, o.wait_for_sync)
        + flag_param("returnNew"@, o.return_new)
        + flag_param("returnOld"@, o.return_old)
        + flag_param("silent"@, o.silent)
        + flag_param("overwrite"@, o.overwrite)
        + mode_param(mode_supported, o.overwrite_mode)
}

impl Default for DocumentInsertOptions {
    /// No option set.
    fn default() -> (r: Self)
        ensures
            r.wait_for_sync is None,
            r.return_new is None,
            r.return_old is None,
            r.silent is None,
            r.overwrite is None,
            r.overwrite_mode is None,
    {
        DocumentInsertOptions {
            wait_for_sync: None,
            return_new: None,
            return_old: None,
            silent: None,
            overwrite: None,
            overwrite_mode: None,
        }
    }
}

impl DocumentInsertOptions {
    /// Sets `wait_for_sync`, keeping the other fields.
    pub fn wait_for_sync(self, v: bool) -> (r: Self)
        ensures
            r == (DocumentInsertOptions { wait_for_sync: Some(v), ..self }),
    {
        DocumentInsertOptions { wait_for_sync: Some(v), ..self }
    }

    /// Sets `return_new`, keeping the other fields.
    pub fn return_new(self, v: bool) -> (r: Self)
        ensures
            r == (DocumentInsertOptions { return_new: Some(v), ..self }),
    {
        DocumentInsertOptions { return_new: Some(v), ..self }
    }

    /// Sets `return_old`, keeping the other fields.
    pub fn return_old(self, v: bool) -> (r: Self)
        ensures
            r == (DocumentInsertOptions { return_old: Some(v), ..self }),
    {
        DocumentInsertOptions { return_old: Some(v), ..self }
    }

    /// Sets `silent`, keeping the other fields.
    pub fn silent(self, v: bool) -> (r: Self)
        ensures
            r == (DocumentInsertOptions { silent: Some(v), ..self }),
    {
        DocumentInsertOptions { silent: Some(v), ..self }
    }

    /// Sets `overwrite`, keeping the other fields.
    pub fn overwrite(self, v: bool) -> (r: Self)
        ensures
            r == (DocumentInsertOptions { overwrite: Some(v), ..self }),
    {
        DocumentInsertOptions { overwrite: Some(v), ..self }
    }

    /// Sets `overwrite_mode`, keeping the other fields.
    pub fn overwrite_mode(self, v: DocumentOverwriteMode) -> (r: Self)
        ensures
            r == (DocumentInsertOptions { overwrite_mode: Some(v), ..self }),
    {
        DocumentInsertOptions { overwrite_mode: Some(v), ..self }
    }

    /// The request parameters: one per set field, with its literal value.
    /// `overwriteMode` is sent only when `mode_supported` says that the
    /// server knows it.
    pub fn query_params(&self, mode_supported: bool) -> (r: Vec<QueryParam>)
        ensures
            params_view(r@) == insert_params(*self, mode_supported),
    {
        let mut r: Vec<QueryParam> = Vec::new();
        assert(params_view(r@) =~= seq![]);
        push_flag(&mut r, "waitForSync", self.wait_for_sync);
        push_flag(&mut r, "returnNew", self.return_new);
        push_flag(&mut r, "returnOld", self.return_old);
        push_flag(&mut r, "silent", self.silent);
        push_flag(&mut r, "overwrite", self.overwrite);
        if mode_supported {
            if let Some(m) = self.overwrite_mode {
                push_param(&mut r, "overwriteMode", m.tag());
            }
        }
        r
    }
}

/// Options for document update.
///
/// An unset field is left to the server's default and is not sent.
#[derive(Debug, Clone, Copy, PartialEq, Eq, Structural)]
pub struct DocumentUpdateOptions {
    /// Keep attributes whose patch value is null (when `false`, remove them).
    pub keep_null: Option<bool>,
    /// Merge objects present in both the stored and the patch document (the
    /// server's default is `true`).
    pub merge_objects: Option<bool>,
    /// Wait until the document has been synced to disk.
    pub wait_for_sync: Option<bool>,
    /// Ignore the `_rev` in the body (when `false`, it is a precondition).
    pub ignore_revs: Option<bool>,
    /// Also return the complete new document under `new`.
    pub return_new: Option<bool>,
    /// Also return the complete old document under `old`.
    pub return_old: Option<bool>,
    /// Answer with an empty object instead of the document metadata.
    pub silent: Option<bool>,
}

/// The parameters that `DocumentUpdateOptions` is sent as: its set fields, in order.
pub open spec fn update_params(o: DocumentUpdateOptions) -> Seq<(Seq<char>, Seq<char>)> {
    flag_param("keepNull"@, o.keep_null)
        + flag_param("mergeObjects"@, o.merge_objects)
        + flag_param("waitForSync"@, o.wait_for_sync)
        + flag_param("ignoreRevs"@, o.ignore_revs)
        + flag_param("returnNew"@, o.return_new)
        + flag_param("returnOld"@, o.return_old)
        + flag_param("silent"@, o.silent)
}

impl Default for DocumentUpdateOptions {
    /// No option set.
    fn default() -> (r: Self)
        ensures
            r.keep_null is None,
            r.merge_objects is None,
            r.wait_for_sync is None,
            r.ignore_revs is None,
            r.return_new is None,
            r.return_old is None,
            r.silent is None,
    {
        DocumentUpdateOptions {
            keep_null: None,
            merge_objects: None,
            wait_for_sync: None,
            ignore_revs: None,
            return_new: None,
            return_old: None,
            silent: None,
        }
    }
}

impl DocumentUpdateOptions {
    /// Sets `keep_null`, keeping the other fields.
    pub fn keep_null(self, v: bool) -> (r: Self)
        ensures
            r == (DocumentUpdateOptions { keep_null: Some(v), ..self }),
    {
        DocumentUpdateOptions { keep_null: Some(v), ..self }
    }

    /// Sets `merge_objects`, keeping the other fields.
    pub fn merge_objects(self, v: bool) -> (r: Self)
        ensures
            r == (DocumentUpdateOptions { merge_objects: Some(v), ..self }),
    {
        DocumentUpdateOptions { merge_objects: Some(v), ..self }
    }

    /// Sets `wait_for_sync`, keeping the other fields.
    pub fn wait_for_sync(self, v: bool) -> (r: Self)
        ensures
            r == (DocumentUpdateOptions { wait_for_sync: Some(v), ..self }),
    {
        DocumentUpdateOptions { wait_for_sync: Some(v), ..self }
    }

    /// Sets `ignore_revs`, keeping the other fields.
    pub fn ignore_revs(self, v: bool) -> (r: Self)
        ensures
            r == (DocumentUpdateOptions { ignore_revs: Some(v), ..self }),
    {
        DocumentUpdateOptions { ignore_revs: Some(v), ..self }
    }

    /// Sets `return_new`, keeping the other fields.
    pub fn return_new(self, v: bool) -> (r: Self)
        ensures
            r == (DocumentUpdateOptions { return_new: Some(v), ..self }),
    {
        DocumentUpdateOptions { return_new: Some(v), ..self }
    }

    /// Sets `return_old`, keeping the other fields.
    pub fn return_old(self, v: bool) -> (r: Self)
        ensures
            r == (DocumentUpdateOptions { return_old: Some(v), ..self }),
    {
        DocumentUpdateOptions { return_old: Some(v), ..self }
    }

    /// Sets `silent`, keeping the other fields.
    pub fn silent(self, v: bool) -> (r: Self)
        ensures
            r == (DocumentUpdateOptions { silent: Some(v), ..self }),
    {
        DocumentUpdateOptions { silent: Some(v), ..self }
    }

    /// The request parameters: one per set field, with its literal value.
    pub fn query_params(&self) -> (r: Vec<QueryParam>)
        ensures
            params_view(r@) == update_params(*self),
    {
        let mut r: Vec<QueryParam> = Vec::new();
        assert(params_view(r@) =~= seq![]);
        push_flag(&mut r, "keepNull", self.keep_null);
        push_flag(&mut r, "mergeObjects", self.merge_objects);
        push_flag(&mut r, "waitForSync", self.wait_for_sync);
        push_flag(&mut r, "ignoreRevs", self.ignore_revs);
        push_flag(&mut r, "returnNew", self.return_new);
        push_flag(&mut r, "returnOld", self.return_old);
        push_flag(&mut r, "silent", self.silent);
        r
    }
}

/// Options for document replacement.
///
/// An unset field is left to the server's default and is not sent.
#[derive(Debug, Clone, Copy, PartialEq, Eq, Structural)]
pub struct DocumentReplaceOptions {
    /// Wait until the document has been synced to disk.
    pub wait_for_sync: Option<bool>,
    /// Ignore the `_rev` in the body (when `false`, it is a precondition).
    pub ignore_revs: Option<bool>,
    /// Also return the complete new document under `new`.
    pub return_new: Option<bool>,
    /// Also return the complete old document under `old`.
    pub return_old: Option<bool>,
    /// Answer with an empty object instead of the document metadata.
    pub silent: Option<bool>,
}

/// The parameters that `DocumentReplaceOptions` is sent as: its set fields, in order.
pub open spec fn replace_params(o: DocumentReplaceOptions) -> Seq<(Seq<char>, Seq<char>)> {
    flag_param("waitForSync"@, o.wait_for_sync)
        + flag_param("ignoreRevs"@, o.ignore_revs)
        + flag_param("returnNew"@, o.return_new)
        + flag_param("returnOld"@, o.return_old)
        + flag_param("silent"@, o.silent)
}

impl Default for DocumentReplaceOptions {
    /// No option set.
    fn default() -> (r: Self)
        ensures
            r.wait_for_sync is None,
            r.ignore_revs is None,
            r.return_new is None,
            r.return_old is None,
            r.silent is None,
    {
        DocumentReplaceOptions {
            wait_for_sync: None,
            ignore_revs: None,
            return_new: None,
            return_old: None,
            silent: None,
        }
    }
}

impl DocumentReplaceOptions {
    /// Sets `wait_for_sync`, keeping the other fields.
    pub fn wait_for_sync(self, v: bool) -> (r: Self)
        ensures
            r == (DocumentReplaceOptions { wait_for_sync: Some(v), ..self }),
    {
        DocumentReplaceOptions { wait_for_sync: Some(v), ..self }
    }

    /// Sets `ignore_revs`, keeping the other fields.
    pub fn ignore_revs(self, v: bool) -> (r: Self)
        ensures
            r == (DocumentReplaceOptions { ignore_revs: Some(v), ..self }),
    {
        DocumentReplaceOptions { ignore_revs: Some(v), ..self }
    }

    /// Sets `return_new`, keeping the other fields.
    pub fn return_new(self, v: bool) -> (r: Self)
        ensures
            r == (DocumentReplaceOptions { return_new: Some(v), ..self }),
    {
        DocumentReplaceOptions { return_new: Some(v), ..self }
    }

    /// Sets `return_old`, keeping the other fields.
    pub fn return_old(self, v: bool) -> (r: Self)
        ensures
            r == (DocumentReplaceOptions { return_old: Some(v), ..self }),
    {
        DocumentReplaceOptions { return_old: Some(v), ..self }
    }

    /// Sets `silent`, keeping the other fields.
    pub fn silent(self, v: bool) -> (r: Self)
        ensures
            r == (DocumentReplaceOptions { silent: Some(v), ..self }),
    {
        DocumentReplaceOptions { silent: Some(v), ..self }
    }

    /// The request parameters: one per set field, with its literal value.
    pub fn query_params(&self) -> (r: Vec<QueryParam>)
        ensures
            params_view(r@) == replace_params(*self),
    {
        let mut r: Vec<QueryParam> = Vec::new();
        assert(params_view(r@) =~= seq![]);
        push_flag(&mut r, "waitForSync", self.wait_for_sync);
        push_flag(&mut r, "ignoreRevs", self.ignore_revs);
        push_flag(&mut r, "returnNew", self.return_new);
        push_flag(&mut r, "returnOld", self.return_old);
        push_flag(&mut r, "silent", self.silent);
        r
    }
}

/// Options for document removal.
///
/// An unset field is left to the server's default and is not sent.
#[derive(Debug, Clone, Copy, PartialEq, Eq, Structural)]
pub struct DocumentRemoveOptions {
    /// Wait until the document has been synced to disk.
    pub wait_for_sync: Option<bool>,
    /// Also return the complete old document under `old`.
    pub return_old: Option<bool>,
    /// Answer with an empty object instead of the document metadata.
    pub silent: Option<bool>,
}

/// The parameters that `DocumentRemoveOptions` is sent as: its set fields, in order.
pub open spec fn remove_params(o: DocumentRemoveOptions) -> Seq<(Seq<char>, Seq<char>)> {
    flag_param("waitForSync"@, o.wait_for_sync)
        + flag_param("returnOld"@, o.return_old)
        + flag_param("silent"@, o.silent)
}

impl Default for DocumentRemoveOptions {
    /// No option set.
    fn default() -> (r: Self)
        ensures
            r.wait_for_sync is None,
            r.return_old is None,
            r.silent is None,
    {
        DocumentRemoveOptions { wait_for_sync: None, return_old: None, silent: None }
    }
}

impl DocumentRemoveOptions {
    /// Sets `wait_for_sync`, keeping the other fields.
    pub fn wait_for_sync(self, v: bool) -> (r: Self)
        ensures
            r == (DocumentRemoveOptions { wait_for_sync: Some(v), ..self }),
    {
        DocumentRemoveOptions { wait_for_sync: Some(v), ..self }
    }

    /// Sets `return_old`, keeping the other fields.
    pub fn return_old(self, v: bool) -> (r: Self)
        ensures
            r == (DocumentRemoveOptions { return_old: Some(v), ..self }),
    {
        DocumentRemoveOptions { return_old: Some(v), ..self }
    }

    /// Sets `silent`, keeping the other fields.
    pub fn silent(self, v: bool) -> (r: Self)
        ensures
            r == (DocumentRemoveOptions { silent: Some(v), ..self }),
    {
        DocumentRemoveOptions { silent: Some(v), ..self }
    }

    /// The request parameters: one per set field, with its literal value.
    pub fn query_params(&self) -> (r: Vec<QueryParam>)
        ensures
            params_view(r@) == remove_params(*self),
    {
        let mut r: Vec<QueryParam> = Vec::new();
        assert(params_view(r@) =~= seq![]);
        push_flag(&mut r, "waitForSync", self.wait_for_sync);
        push_flag(&mut r, "returnOld", self.return_old);
        push_flag(&mut r, "silent", self.silent);
        r
    }
}
} // verus!
