//! Project repository files API endpoints.

use vstd::prelude::*;
use vstd::string::StringExecFns;

use crate::common::{
    form_request_body, BuilderError, Endpoint, IntoNameOrId, Method, NameOrId, Pageable,
};
use crate::params::{
    lemma_values_of_concat, lemma_values_of_opt_pair, lemma_values_of_single, opt_pair, opt_value,
    values_of, ParamValue, ParamView, Params,
};
use crate::text::{ascii_chars, bytes_to_vec, decimal, decimal_string, path_escape, path_escaped};

verus! {

/// Encodings for uploaded file contents.
#[derive(Debug, Clone, Copy, PartialEq, Eq, Structural)]
pub enum Encoding {
    /// No special encoding; only supports UTF-8 content.
    Text,
    /// Base64-encoding; supports binary content.
    Base64,
}

impl Encoding {
    pub open spec fn spec_is_binary_safe(self) -> bool {
        self == Encoding::Base64
    }

    /// Whether the encoding can carry any content, UTF-8 or not.
    pub fn is_binary_safe(self) -> (r: bool)
        ensures
            r == self.spec_is_binary_safe(),
    {
        match self {
            Encoding::Text => false,
            Encoding::Base64 => true,
        }
    }

    /// The content as sent with this encoding; text content must be given as
    /// a string.
    pub fn encode(self, as_string: Option<&str>, content: &[u8]) -> (r: String)
        requires
            self == Encoding::Base64 || as_string is Some,
        ensures
            self == Encoding::Text ==> r@ == as_string->0@,
            self == Encoding::Base64 ==> r@ == base64_text(content@),
    {
        match self {
            Encoding::Text => match as_string {
                Some(s) => s.to_owned(),
                None => String::new(),
            },
            Encoding::Base64 => base64_encode(content),
        }
    }

    /// The name of the variant.
    pub open spec fn spec_as_str(self) -> Seq<char> {
        match self {
            Encoding::Text => "text"@,
            Encoding::Base64 => "base64"@,
        }
    }

    /// The name of the variant.
    pub fn as_str(self) -> (r: &'static str)
        ensures
            r@ == self.spec_as_str(),
    {
        match self {
            Encoding::Text => "text",
            Encoding::Base64 => "base64",
        }
    }
}

impl ParamValue for Encoding {
    open spec fn spec_value(&self) -> Seq<char> {
        self.spec_as_str()
    }

    fn as_value(&self) -> (r: String) {
        self.as_str().to_owned()
    }
}

impl Default for Encoding {
    fn default() -> (r: Self)
        ensures
            r == Encoding::Text,
    {
        Encoding::Text
    }
}

/// The character of the standard Base64 alphabet for a six-bit value:
/// `A`-`Z`, `a`-`z`, `0`-`9`, `+` and `/`.
pub open spec fn base64_digit(n: int) -> char {
    if n < 26 {
        (65 + n) as char
    } else if n < 52 {
        (97 + n - 26) as char
    } else if n < 62 {
        (48 + n - 52) as char
    } else if n == 62 {
        '+'
    } else {
        '/'
    }
}

/// The Base64 encoding (standard alphabet, with `=` padding) of a byte
/// string: each group of three bytes gives four characters, and a final
/// group of one or two bytes gives two or three characters and padding.
pub open spec fn base64_text(data: Seq<u8>) -> Seq<char>
    decreases data.len(),
{
    if data.len() == 0 {
        Seq::empty()
    } else if data.len() == 1 {
        let a = data[0] as int;
        seq![base64_digit(a / 4), base64_digit((a % 4) * 16), '=', '=']
    } else if data.len() == 2 {
        let a = data[0] as int;
        let b = data[1] as int;
        seq![base64_digit(a / 4), base64_digit((a % 4) * 16 + b / 16), base64_digit((b % 16) * 4), '=']
    } else {
        let a = data[0] as int;
        let b = data[1] as int;
        let c = data[2] as int;
        seq![
            base64_digit(a / 4),
            base64_digit((a % 4) * 16 + b / 16),
            base64_digit((b % 16) * 4 + c / 64),
            base64_digit(c % 64),
        ] + base64_text(data.subrange(3, data.len() as int))
    }
}

/// Encodes bytes through `base64::encode`, which uses the standard alphabet
/// with padding (base64-0.13.1, `encode` with the `STANDARD` configuration).
#[verifier::external_body]
fn base64_encode(data: &[u8]) -> (r: String)
    ensures
        r@ == base64_text(data@),
{
    base64::encode(data)
}

/// Decodes bytes as UTF-8 through `String::from_utf8`, which accepts exactly
/// the valid UTF-8 byte strings.
#[verifier::external_body]
fn utf8_text(bytes: &[u8]) -> (r: Option<String>)
    ensures
        r is Some <==> vstd::utf8::valid_utf8(bytes@),
        r matches Some(s) ==> s@ == vstd::utf8::decode_utf8(bytes@),
{
    String::from_utf8(bytes.to_vec()).ok()
}

/// The encoding a file's content is sent with: the requested one (text by
/// default), except that content which is not UTF-8 is always sent as Base64.
pub open spec fn effective_encoding(requested: Option<Encoding>, content: Seq<u8>) -> Encoding {
    let e = match requested {
        Some(e) => e,
        None => Encoding::Text,
    };
    if !vstd::utf8::valid_utf8(content) && !e.spec_is_binary_safe() {
        Encoding::Base64
    } else {
        e
    }
}

/// The content as sent with an encoding.
/// The encoding used for a file can always carry its content: content that
/// is not UTF-8 is sent in base64, whatever encoding was asked for.
pub proof fn lemma_encoding_carries_content(requested: Option<Encoding>, content: Seq<u8>)
    ensures
        effective_encoding(requested, content) == Encoding::Base64 || vstd::utf8::valid_utf8(
            content,
        ),
        requested == Some(Encoding::Base64) ==> effective_encoding(requested, content)
            == Encoding::Base64,
{
}

pub open spec fn encoded_content(e: Encoding, content: Seq<u8>) -> Seq<char> {
    match e {
        Encoding::Text => vstd::utf8::decode_utf8(content),
        Encoding::Base64 => base64_text(content),
    }
}

/// The `encoding` parameter: sent when an encoding was requested or when the
/// content is not sent as text.
pub open spec fn encoding_param(requested: Option<Encoding>, actual: Encoding) -> Option<Seq<char>> {
    if requested is Some || actual != Encoding::Text {
        Some(actual.spec_as_str())
    } else {
        None
    }
}

/// The encoding to use for `content` and the content as sent with it.
pub fn encode_content(requested: Option<Encoding>, content: &[u8]) -> (r: (Encoding, String))
    ensures
        r.0 == effective_encoding(requested, content@),
        r.1@ == encoded_content(r.0, content@),
{
    let text = utf8_text(content);
    let encoding = match requested {
        Some(e) => e,
        None => Encoding::Text,
    };
    let actual = if text.is_none() && !encoding.is_binary_safe() {
        Encoding::Base64
    } else {
        encoding
    };
    let encoded = match text {
        Some(s) => actual.encode(Some(s.as_str()), content),
        None => actual.encode(None, content),
    };
    (actual, encoded)
}

/// The encoding named in the request, if any.
pub fn sent_encoding(requested: Option<Encoding>, actual: Encoding) -> (r: Option<Encoding>)
    ensures
        opt_value(r) == encoding_param(requested, actual),
{
    match requested {
        Some(_) => Some(actual),
        None => if actual != Encoding::Text {
            Some(actual)
        } else {
            None
        },
    }
}

/// Create a file in a repository.
#[derive(Debug)]
pub struct CreateFile {
    /// The project to create a file within.
    pub project: NameOrId,
    /// The path to the file in the repository (escaped as needed).
    pub file_path: String,
    /// The branch to use for the new commit.
    pub branch: String,
    /// The content of the file, encoded according to `encoding`.
    pub content: Vec<u8>,
    /// The commit message to use.
    pub commit_message: String,
    /// Where to start the branch from (if it does not already exist).
    pub start_branch: Option<String>,
    /// The encoding to use for the content; content which is not UTF-8 is always sent in a binary-safe encoding.
    pub encoding: Option<Encoding>,
    /// The email of the author for the new commit.
    pub author_email: Option<String>,
    /// The name of the author for the new commit.
    pub author_name: Option<String>,
}

/// A new file is always sent with its branch and its commit message, each
/// as the one parameter of that name.
pub proof fn lemma_create_file_sends_branch_and_message(e: CreateFile)
    ensures
        values_of(e.spec_parameters(), "commit_message"@) == seq![e.commit_message@],
        values_of(e.spec_parameters(), "branch"@) == seq![e.branch@],
{
    reveal_strlit("branch");
    reveal_strlit("content");
    reveal_strlit("commit_message");
    reveal_strlit("start_branch");
    reveal_strlit("encoding");
    reveal_strlit("author_email");
    reveal_strlit("author_name");
    assert("branch"@.len() == 6 && "content"@.len() == 7 && "commit_message"@.len() == 14);
    assert("start_branch"@.len() == 12 && "encoding"@.len() == 8);
    assert("author_email"@.len() == 12 && "author_name"@.len() == 11);
    let actual = effective_encoding(e.encoding, e.content@);
    let a = seq![("branch"@, e.branch.spec_value())];
    let b = seq![("content"@, encoded_content(actual, e.content@))];
    let c = seq![("commit_message"@, e.commit_message.spec_value())];
    let d = opt_pair("start_branch"@, opt_value(e.start_branch));
    let f = opt_pair("encoding"@, encoding_param(e.encoding, actual));
    let g = opt_pair("author_email"@, opt_value(e.author_email));
    let h = opt_pair("author_name"@, opt_value(e.author_name));
    assert(e.spec_parameters() == a + b + c + d + f + g + h);
    let keys = seq!["commit_message"@, "branch"@];
    assert forall|i: int| 0 <= i < 2 implies values_of(e.spec_parameters(), #[trigger] keys[i])
        == values_of(a, keys[i]) + values_of(b, keys[i]) + values_of(c, keys[i]) + values_of(d, keys[i])
        + values_of(f, keys[i]) + values_of(g, keys[i]) + values_of(h, keys[i]) by {
        let key = keys[i];
        lemma_values_of_concat(a, b, key);
        lemma_values_of_concat(a + b, c, key);
        lemma_values_of_concat(a + b + c, d, key);
        lemma_values_of_concat(a + b + c + d, f, key);
        lemma_values_of_concat(a + b + c + d + f, g, key);
        lemma_values_of_concat(a + b + c + d + f + g, h, key);
    }
    assert forall|i: int| 0 <= i < 2 implies {
        let key = #[trigger] keys[i];
        &&& values_of(a, key) == if key == "branch"@ { seq![e.branch@] } else { Seq::<Seq<char>>::empty() }
        &&& values_of(b, key) == Seq::<Seq<char>>::empty()
        &&& values_of(c, key) == if key == "commit_message"@ { seq![e.commit_message@] } else { Seq::<Seq<char>>::empty() }
        &&& values_of(d, key) == Seq::<Seq<char>>::empty()
        &&& values_of(f, key) == Seq::<Seq<char>>::empty()
        &&& values_of(g, key) == Seq::<Seq<char>>::empty()
        &&& values_of(h, key) == Seq::<Seq<char>>::empty()
    } by {
        let key = keys[i];
        lemma_values_of_single("branch"@, e.branch.spec_value(), key);
        lemma_values_of_single("content"@, encoded_content(actual, e.content@), key);
        lemma_values_of_single("commit_message"@, e.commit_message.spec_value(), key);
        lemma_values_of_opt_pair("start_branch"@, opt_value(e.start_branch), key);
        lemma_values_of_opt_pair("encoding"@, encoding_param(e.encoding, actual), key);
        lemma_values_of_opt_pair("author_email"@, opt_value(e.author_email), key);
        lemma_values_of_opt_pair("author_name"@, opt_value(e.author_name), key);
    }
    assert(keys[0] == "commit_message"@);
    assert(keys[1] == "branch"@);
    let z = Seq::<Seq<char>>::empty();
    assert(z + z + seq![e.commit_message@] + z + z + z + z =~= seq![e.commit_message@]);
    assert(seq![e.branch@] + z + z + z + z + z + z =~= seq![e.branch@]);
}

/// Builder for [`CreateFile`].
#[derive(Debug)]
pub struct CreateFileBuilder {
    pub project: Option<NameOrId>,
    pub file_path: Option<String>,
    pub branch: Option<String>,
    pub content: Option<Vec<u8>>,
    pub commit_message: Option<String>,
    pub start_branch: Option<String>,
    pub encoding: Option<Encoding>,
    pub author_email: Option<String>,
    pub author_name: Option<String>,
}

impl CreateFile {
    /// Create a builder for the endpoint.
    pub fn builder() -> (r: CreateFileBuilder)
        ensures
            r.project is None,
            r.file_path is None,
            r.branch is None,
            r.content is None,
            r.commit_message is None,
            r.start_branch is None,
            r.encoding is None,
            r.author_email is None,
            r.author_name is None,
    {
        CreateFileBuilder { project: None, file_path: None, branch: None, content: None, commit_message: None, start_branch: None, encoding: None, author_email: None, author_name: None }
    }
}

impl CreateFileBuilder {
    /// The project to create a file within.
    pub fn project<P: IntoNameOrId>(self, project: P) -> (r: Self)
        ensures
            r.project matches Some(v) && project.denotes(v),
            r.file_path == self.file_path,
            r.branch == self.branch,
            r.content == self.content,
            r.commit_message == self.commit_message,
            r.start_branch == self.start_branch,
            r.encoding == self.encoding,
            r.author_email == self.author_email,
            r.author_name == self.author_name,
    {
        let mut r = self;
        r.project = Some(project.into_name_or_id());
        r
    }

    /// The path to the file in the repository (escaped as needed).
    pub fn file_path(self, file_path: &str) -> (r: Self)
        ensures
            r.file_path matches Some(v) && v@ == file_path@,
            r.project == self.project,
            r.branch == self.branch,
            r.content == self.content,
            r.commit_message == self.commit_message,
            r.start_branch == self.start_branch,
            r.encoding == self.encoding,
            r.author_email == self.author_email,
            r.author_name == self.author_name,
    {
        let mut r = self;
        r.file_path = Some(file_path.to_owned());
        r
    }

    /// The branch to use for the new commit.
    pub fn branch(self, branch: &str) -> (r: Self)
        ensures
            r.branch matches Some(v) && v@ == branch@,
            r.project == self.project,
            r.file_path == self.file_path,
            r.content == self.content,
            r.commit_message == self.commit_message,
            r.start_branch == self.start_branch,
            r.encoding == self.encoding,
            r.author_email == self.author_email,
            r.author_name == self.author_name,
    {
        let mut r = self;
        r.branch = Some(branch.to_owned());
        r
    }

    /// The content of the file, encoded according to `encoding`.
    pub fn content(self, content: &[u8]) -> (r: Self)
        ensures
            r.content matches Some(v) && v@ == content@,
            r.project == self.project,
            r.file_path == self.file_path,
            r.branch == self.branch,
            r.commit_message == self.commit_message,
            r.start_branch == self.start_branch,
            r.encoding == self.encoding,
            r.author_email == self.author_email,
            r.author_name == self.author_name,
    {
        let mut r = self;
        r.content = Some(bytes_to_vec(content));
        r
    }

    /// The commit message to use.
    pub fn commit_message(self, commit_message: &str) -> (r: Self)
        ensures
            r.commit_message matches Some(v) && v@ == commit_message@,
            r.project == self.project,
            r.file_path == self.file_path,
            r.branch == self.branch,
            r.content == self.content,
            r.start_branch == self.start_branch,
            r.encoding == self.encoding,
            r.author_email == self.author_email,
            r.author_name == self.author_name,
    {
        let mut r = self;
        r.commit_message = Some(commit_message.to_owned());
        r
    }

    /// Where to start the branch from (if it does not already exist).
    pub fn start_branch(self, start_branch: &str) -> (r: Self)
        ensures
            r.start_branch matches Some(v) && v@ == start_branch@,
            r.project == self.project,
            r.file_path == self.file_path,
            r.branch == self.branch,
            r.content == self.content,
            r.commit_message == self.commit_message,
            r.encoding == self.encoding,
            r.author_email == self.author_email,
            r.author_name == self.author_name,
    {
        let mut r = self;
        r.start_branch = Some(start_branch.to_owned());
        r
    }

    /// The encoding to use for the content; content which is not UTF-8 is always sent in a binary-safe encoding.
    pub fn encoding(self, encoding: Encoding) -> (r: Self)
        ensures
            r.encoding == Some(encoding),
            r.project == self.project,
            r.file_path == self.file_path,
            r.branch == self.branch,
            r.content == self.content,
            r.commit_message == self.commit_message,
            r.start_branch == self.start_branch,
            r.author_email == self.author_email,
            r.author_name == self.author_name,
    {
        let mut r = self;
        r.encoding = Some(encoding);
        r
    }

    /// The email of the author for the new commit.
    pub fn author_email(self, author_email: &str) -> (r: Self)
        ensures
            r.author_email matches Some(v) && v@ == author_email@,
            r.project == self.project,
            r.file_path == self.file_path,
            r.branch == self.branch,
            r.content == self.content,
            r.commit_message == self.commit_message,
            r.start_branch == self.start_branch,
            r.encoding == self.encoding,
            r.author_name == self.author_name,
    {
        let mut r = self;
        r.author_email = Some(author_email.to_owned());
        r
    }

    /// The name of the author for the new commit.
    pub fn author_name(self, author_name: &str) -> (r: Self)
        ensures
            r.author_name matches Some(v) && v@ == author_name@,
            r.project == self.project,
            r.file_path == self.file_path,
            r.branch == self.branch,
            r.content == self.content,
            r.commit_message == self.commit_message,
            r.start_branch == self.start_branch,
            r.encoding == self.encoding,
            r.author_email == self.author_email,
    {
        let mut r = self;
        r.author_name = Some(author_name.to_owned());
        r
    }

    /// Build the endpoint (`project`, `file_path`, `branch`, `content`, `commit_message` must be set).
    pub fn build(self) -> (r: Result<CreateFile, BuilderError>)
        ensures
            (self.project is None) ==> (r matches Err(e) && e.missing("project"@)),
            (self.project is Some && self.file_path is None) ==> (r matches Err(e) && e.missing("file_path"@)),
            (self.project is Some && self.file_path is Some && self.branch is None) ==> (r matches Err(e) && e.missing("branch"@)),
            (self.project is Some && self.file_path is Some && self.branch is Some && self.content is None) ==> (r matches Err(e) && e.missing("content"@)),
            (self.project is Some && self.file_path is Some && self.branch is Some && self.content is Some && self.commit_message is None) ==> (r matches Err(e) && e.missing("commit_message"@)),
            (self.project is Some && self.file_path is Some && self.branch is Some && self.content is Some && self.commit_message is Some) ==> (r matches Ok(v) && v.project == self.project->0 && v.file_path == self.file_path->0 && v.branch == self.branch->0 && v.content == self.content->0 && v.commit_message == self.commit_message->0 && v.start_branch == self.start_branch && v.encoding == self.encoding && v.author_email == self.author_email && v.author_name == self.author_name),
    {
        match self.project {
            None => Err(BuilderError::UninitializedField("project")),
            Some(project) => {
                match self.file_path {
                    None => Err(BuilderError::UninitializedField("file_path")),
                    Some(file_path) => {
                        match self.branch {
                            None => Err(BuilderError::UninitializedField("branch")),
                            Some(branch) => {
                                match self.content {
                                    None => Err(BuilderError::UninitializedField("content")),
                                    Some(content) => {
                                        match self.commit_message {
                                            None => Err(BuilderError::UninitializedField("commit_message")),
                                            Some(commit_message) => {
                                                Ok(CreateFile { project, file_path, branch, content, commit_message, start_branch: self.start_branch, encoding: self.encoding, author_email: self.author_email, author_name: self.author_name })
                                            },
                                        }
                                    },
                                }
                            },
                        }
                    },
                }
            },
        }
    }
}

impl Endpoint for CreateFile {
    open spec fn spec_method(&self) -> Method {
        Method::Post
    }

    open spec fn spec_endpoint(&self) -> Seq<char> {
        "projects/"@ + self.project.segment() + "/repository/files/"@ + ascii_chars(path_escape(vstd::utf8::encode_utf8(self.file_path@)))
    }

    open spec fn spec_parameters(&self) -> Seq<ParamView> {
        seq![("branch"@, self.branch.spec_value())] + seq![("content"@, encoded_content(effective_encoding(self.encoding, self.content@), self.content@))] + seq![("commit_message"@, self.commit_message.spec_value())] + opt_pair("start_branch"@, opt_value(self.start_branch)) + opt_pair("encoding"@, encoding_param(self.encoding, effective_encoding(self.encoding, self.content@))) + opt_pair("author_email"@, opt_value(self.author_email)) + opt_pair("author_name"@, opt_value(self.author_name))
    }

    open spec fn spec_body(&self) -> Option<Seq<ParamView>> {
        None
    }

    fn method(&self) -> (r: Method) {
        Method::Post
    }

    fn endpoint(&self) -> (r: String) {
        let mut r = "projects/".to_owned();
        r.append(self.project.to_segment().as_str());
        r.append("/repository/files/");
        r.append(path_escaped(self.file_path.as_str()).as_str());
        r
    }

    fn parameters(&self) -> (r: Params) {
        let (actual, text) = encode_content(self.encoding, self.content.as_slice());
        let mut p = Params::new();
        p.push("branch", &self.branch);
        p.push_string("content", text);
        p.push("commit_message", &self.commit_message);
        p.push_opt("start_branch", &self.start_branch);
        p.push_opt("encoding", &sent_encoding(self.encoding, actual));
        p.push_opt("author_email", &self.author_email);
        p.push_opt("author_name", &self.author_name);
        assert(p@ =~= seq![("branch"@, self.branch.spec_value())] + seq![("content"@, encoded_content(effective_encoding(self.encoding, self.content@), self.content@))] + seq![("commit_message"@, self.commit_message.spec_value())] + opt_pair("start_branch"@, opt_value(self.start_branch)) + opt_pair("encoding"@, encoding_param(self.encoding, effective_encoding(self.encoding, self.content@))) + opt_pair("author_email"@, opt_value(self.author_email)) + opt_pair("author_name"@, opt_value(self.author_name)));
        p
    }

    fn body(&self) -> (r: Option<(&'static str, Vec<u8>)>) {
        None
    }
}

/// Delete a file in a repository.
#[derive(Debug)]
pub struct DeleteFile {
    /// The project to delete a file within.
    pub project: NameOrId,
    /// The path to the file in the repository (escaped as needed).
    pub file_path: String,
    /// The branch to use for the new commit.
    pub branch: String,
    /// The commit message to use.
    pub commit_message: String,
    /// Where to start the branch from (if it does not already exist).
    pub start_branch: Option<String>,
    /// The email of the author for the new commit.
    pub author_email: Option<String>,
    /// The name of the author for the new commit.
    pub author_name: Option<String>,
}

/// Builder for [`DeleteFile`].
#[derive(Debug)]
pub struct DeleteFileBuilder {
    pub project: Option<NameOrId>,
    pub file_path: Option<String>,
    pub branch: Option<String>,
    pub commit_message: Option<String>,
    pub start_branch: Option<String>,
    pub author_email: Option<String>,
    pub author_name: Option<String>,
}

impl DeleteFile {
    /// Create a builder for the endpoint.
    pub fn builder() -> (r: DeleteFileBuilder)
        ensures
            r.project is None,
            r.file_path is None,
            r.branch is None,
            r.commit_message is None,
            r.start_branch is None,
            r.author_email is None,
            r.author_name is None,
    {
        DeleteFileBuilder { project: None, file_path: None, branch: None, commit_message: None, start_branch: None, author_email: None, author_name: None }
    }
}

impl DeleteFileBuilder {
    /// The project to delete a file within.
    pub fn project<P: IntoNameOrId>(self, project: P) -> (r: Self)
        ensures
            r.project matches Some(v) && project.denotes(v),
            r.file_path == self.file_path,
            r.branch == self.branch,
            r.commit_message == self.commit_message,
            r.start_branch == self.start_branch,
            r.author_email == self.author_email,
            r.author_name == self.author_name,
    {
        let mut r = self;
        r.project = Some(project.into_name_or_id());
        r
    }

    /// The path to the file in the repository (escaped as needed).
    pub fn file_path(self, file_path: &str) -> (r: Self)
        ensures
            r.file_path matches Some(v) && v@ == file_path@,
            r.project == self.project,
            r.branch == self.branch,
            r.commit_message == self.commit_message,
            r.start_branch == self.start_branch,
            r.author_email == self.author_email,
            r.author_name == self.author_name,
    {
        let mut r = self;
        r.file_path = Some(file_path.to_owned());
        r
    }

    /// The branch to use for the new commit.
    pub fn branch(self, branch: &str) -> (r: Self)
        ensures
            r.branch matches Some(v) && v@ == branch@,
            r.project == self.project,
            r.file_path == self.file_path,
            r.commit_message == self.commit_message,
            r.start_branch == self.start_branch,
            r.author_email == self.author_email,
            r.author_name == self.author_name,
    {
        let mut r = self;
        r.branch = Some(branch.to_owned());
        r
    }

    /// The commit message to use.
    pub fn commit_message(self, commit_message: &str) -> (r: Self)
        ensures
            r.commit_message matches Some(v) && v@ == commit_message@,
            r.project == self.project,
            r.file_path == self.file_path,
            r.branch == self.branch,
            r.start_branch == self.start_branch,
            r.author_email == self.author_email,
            r.author_name == self.author_name,
    {
        let mut r = self;
        r.commit_message = Some(commit_message.to_owned());
        r
    }

    /// Where to start the branch from (if it does not already exist).
    pub fn start_branch(self, start_branch: &str) -> (r: Self)
        ensures
            r.start_branch matches Some(v) && v@ == start_branch@,
            r.project == self.project,
            r.file_path == self.file_path,
            r.branch == self.branch,
            r.commit_message == self.commit_message,
            r.author_email == self.author_email,
            r.author_name == self.author_name,
    {
        let mut r = self;
        r.start_branch = Some(start_branch.to_owned());
        r
    }

    /// The email of the author for the new commit.
    pub fn author_email(self, author_email: &str) -> (r: Self)
        ensures
            r.author_email matches Some(v) && v@ == author_email@,
            r.project == self.project,
            r.file_path == self.file_path,
            r.branch == self.branch,
            r.commit_message == self.commit_message,
            r.start_branch == self.start_branch,
            r.author_name == self.author_name,
    {
        let mut r = self;
        r.author_email = Some(author_email.to_owned());
        r
    }

    /// The name of the author for the new commit.
    pub fn author_name(self, author_name: &str) -> (r: Self)
        ensures
            r.author_name matches Some(v) && v@ == author_name@,
            r.project == self.project,
            r.file_path == self.file_path,
            r.branch == self.branch,
            r.commit_message == self.commit_message,
            r.start_branch == self.start_branch,
            r.author_email == self.author_email,
    {
        let mut r = self;
        r.author_name = Some(author_name.to_owned());
        r
    }

    /// Build the endpoint (`project`, `file_path`, `branch`, `commit_message` must be set).
    pub fn build(self) -> (r: Result<DeleteFile, BuilderError>)
        ensures
            (self.project is None) ==> (r matches Err(e) && e.missing("project"@)),
            (self.project is Some && self.file_path is None) ==> (r matches Err(e) && e.missing("file_path"@)),
            (self.project is Some && self.file_path is Some && self.branch is None) ==> (r matches Err(e) && e.missing("branch"@)),
            (self.project is Some && self.file_path is Some && self.branch is Some && self.commit_message is None) ==> (r matches Err(e) && e.missing("commit_message"@)),
            (self.project is Some && self.file_path is Some && self.branch is Some && self.commit_message is Some) ==> (r matches Ok(v) && v.project == self.project->0 && v.file_path == self.file_path->0 && v.branch == self.branch->0 && v.commit_message == self.commit_message->0 && v.start_branch == self.start_branch && v.author_email == self.author_email && v.author_name == self.author_name),
    {
        match self.project {
            None => Err(BuilderError::UninitializedField("project")),
            Some(project) => {
                match self.file_path {
                    None => Err(BuilderError::UninitializedField("file_path")),
                    Some(file_path) => {
                        match self.branch {
                            None => Err(BuilderError::UninitializedField("branch")),
                            Some(branch) => {
                                match self.commit_message {
                                    None => Err(BuilderError::UninitializedField("commit_message")),
                                    Some(commit_message) => {
                                        Ok(DeleteFile { project, file_path, branch, commit_message, start_branch: self.start_branch, author_email: self.author_email, author_name: self.author_name })
                                    },
                                }
                            },
                        }
                    },
                }
            },
        }
    }
}

impl Endpoint for DeleteFile {
    open spec fn spec_method(&self) -> Method {
        Method::Delete
    }

    open spec fn spec_endpoint(&self) -> Seq<char> {
        "projects/"@ + self.project.segment() + "/repository/files/"@ + ascii_chars(path_escape(vstd::utf8::encode_utf8(self.file_path@)))
    }

    open spec fn spec_parameters(&self) -> Seq<ParamView> {
        Seq::<ParamView>::empty()
    }

    open spec fn spec_body(&self) -> Option<Seq<ParamView>> {
        Some(seq![("branch"@, self.branch.spec_value())] + seq![("commit_message"@, self.commit_message.spec_value())] + opt_pair("start_branch"@, opt_value(self.start_branch)) + opt_pair("author_email"@, opt_value(self.author_email)) + opt_pair("author_name"@, opt_value(self.author_name)))
    }

    fn method(&self) -> (r: Method) {
        Method::Delete
    }

    fn endpoint(&self) -> (r: String) {
        let mut r = "projects/".to_owned();
        r.append(self.project.to_segment().as_str());
        r.append("/repository/files/");
        r.append(path_escaped(self.file_path.as_str()).as_str());
        r
    }

    fn parameters(&self) -> (r: Params) {
        let mut p = Params::new();
        assert(p@ =~= Seq::<ParamView>::empty());
        p
    }

    fn body(&self) -> (r: Option<(&'static str, Vec<u8>)>) {
        let mut p = Params::new();
        p.push("branch", &self.branch);
        p.push("commit_message", &self.commit_message);
        p.push_opt("start_branch", &self.start_branch);
        p.push_opt("author_email", &self.author_email);
        p.push_opt("author_name", &self.author_name);
        assert(p@ =~= seq![("branch"@, self.branch.spec_value())] + seq![("commit_message"@, self.commit_message.spec_value())] + opt_pair("start_branch"@, opt_value(self.start_branch)) + opt_pair("author_email"@, opt_value(self.author_email)) + opt_pair("author_name"@, opt_value(self.author_name)));
        form_request_body(&p)
    }
}

/// Get the raw contents of a file in a repository.
#[derive(Debug)]
pub struct FileRaw {
    /// The project to get a file within.
    pub project: NameOrId,
    /// The path to the file in the repository (escaped as needed).
    pub file_path: String,
    /// The ref to get a file from.
    pub ref_: String,
}

/// Builder for [`FileRaw`].
#[derive(Debug)]
pub struct FileRawBuilder {
    pub project: Option<NameOrId>,
    pub file_path: Option<String>,
    pub ref_: Option<String>,
}

impl FileRaw {
    /// Create a builder for the endpoint.
    pub fn builder() -> (r: FileRawBuilder)
        ensures
            r.project is None,
            r.file_path is None,
            r.ref_ is None,
    {
        FileRawBuilder { project: None, file_path: None, ref_: None }
    }
}

impl FileRawBuilder {
    /// The project to get a file within.
    pub fn project<P: IntoNameOrId>(self, project: P) -> (r: Self)
        ensures
            r.project matches Some(v) && project.denotes(v),
            r.file_path == self.file_path,
            r.ref_ == self.ref_,
    {
        let mut r = self;
        r.project = Some(project.into_name_or_id());
        r
    }

    /// The path to the file in the repository (escaped as needed).
    pub fn file_path(self, file_path: &str) -> (r: Self)
        ensures
            r.file_path matches Some(v) && v@ == file_path@,
            r.project == self.project,
            r.ref_ == self.ref_,
    {
        let mut r = self;
        r.file_path = Some(file_path.to_owned());
        r
    }

    /// The ref to get a file from.
    pub fn ref_(self, ref_: &str) -> (r: Self)
        ensures
            r.ref_ matches Some(v) && v@ == ref_@,
            r.project == self.project,
            r.file_path == self.file_path,
    {
        let mut r = self;
        r.ref_ = Some(ref_.to_owned());
        r
    }

    /// Build the endpoint (`project`, `file_path`, `ref_` must be set).
    pub fn build(self) -> (r: Result<FileRaw, BuilderError>)
        ensures
            (self.project is None) ==> (r matches Err(e) && e.missing("project"@)),
            (self.project is Some && self.file_path is None) ==> (r matches Err(e) && e.missing("file_path"@)),
            (self.project is Some && self.file_path is Some && self.ref_ is None) ==> (r matches Err(e) && e.missing("ref_"@)),
            (self.project is Some && self.file_path is Some && self.ref_ is Some) ==> (r matches Ok(v) && v.project == self.project->0 && v.file_path == self.file_path->0 && v.ref_ == self.ref_->0),
    {
        match self.project {
            None => Err(BuilderError::UninitializedField("project")),
            Some(project) => {
                match self.file_path {
                    None => Err(BuilderError::UninitializedField("file_path")),
                    Some(file_path) => {
                        match self.ref_ {
                            None => Err(BuilderError::UninitializedField("ref_")),
                            Some(ref_) => {
                                Ok(FileRaw { project, file_path, ref_ })
                            },
                        }
                    },
                }
            },
        }
    }
}

impl Endpoint for FileRaw {
    open spec fn spec_method(&self) -> Method {
        Method::Get
    }

    open spec fn spec_endpoint(&self) -> Seq<char> {
        "projects/"@ + self.project.segment() + "/repository/files/"@ + ascii_chars(path_escape(vstd::utf8::encode_utf8(self.file_path@))) + "/raw"@
    }

    open spec fn spec_parameters(&self) -> Seq<ParamView> {
        seq![("ref"@, self.ref_.spec_value())]
    }

    open spec fn spec_body(&self) -> Option<Seq<ParamView>> {
        None
    }

    fn method(&self) -> (r: Method) {
        Method::Get
    }

    fn endpoint(&self) -> (r: String) {
        let mut r = "projects/".to_owned();
        r.append(self.project.to_segment().as_str());
        r.append("/repository/files/");
        r.append(path_escaped(self.file_path.as_str()).as_str());
        r.append("/raw");
        r
    }

    fn parameters(&self) -> (r: Params) {
        let mut p = Params::new();
        p.push("ref", &self.ref_);
        assert(p@ =~= seq![("ref"@, self.ref_.spec_value())]);
        p
    }

    fn body(&self) -> (r: Option<(&'static str, Vec<u8>)>) {
        None
    }
}

/// Update a file in a repository.
#[derive(Debug)]
pub struct UpdateFile {
    /// The project to update a file within.
    pub project: NameOrId,
    /// The path to the file in the repository (escaped as needed).
    pub file_path: String,
    /// The branch to use for the new commit.
    pub branch: String,
    /// The content of the file, encoded according to `encoding`.
    pub content: Vec<u8>,
    /// The commit message to use.
    pub commit_message: String,
    /// Where to start the branch from (if it does not already exist).
    pub start_branch: Option<String>,
    /// The encoding to use for the content; content which is not UTF-8 is always sent in a binary-safe encoding.
    pub encoding: Option<Encoding>,
    /// The email of the author for the new commit.
    pub author_email: Option<String>,
    /// The name of the author for the new commit.
    pub author_name: Option<String>,
}

/// Builder for [`UpdateFile`].
#[derive(Debug)]
pub struct UpdateFileBuilder {
    pub project: Option<NameOrId>,
    pub file_path: Option<String>,
    pub branch: Option<String>,
    pub content: Option<Vec<u8>>,
    pub commit_message: Option<String>,
    pub start_branch: Option<String>,
    pub encoding: Option<Encoding>,
    pub author_email: Option<String>,
    pub author_name: Option<String>,
}

impl UpdateFile {
    /// Create a builder for the endpoint.
    pub fn builder() -> (r: UpdateFileBuilder)
        ensures
            r.project is None,
            r.file_path is None,
            r.branch is None,
            r.content is None,
            r.commit_message is None,
            r.start_branch is None,
            r.encoding is None,
            r.author_email is None,
            r.author_name is None,
    {
        UpdateFileBuilder { project: None, file_path: None, branch: None, content: None, commit_message: None, start_branch: None, encoding: None, author_email: None, author_name: None }
    }
}

impl UpdateFileBuilder {
    /// The project to update a file within.
    pub fn project<P: IntoNameOrId>(self, project: P) -> (r: Self)
        ensures
            r.project matches Some(v) && project.denotes(v),
            r.file_path == self.file_path,
            r.branch == self.branch,
            r.content == self.content,
            r.commit_message == self.commit_message,
            r.start_branch == self.start_branch,
            r.encoding == self.encoding,
            r.author_email == self.author_email,
            r.author_name == self.author_name,
    {
        let mut r = self;
        r.project = Some(project.into_name_or_id());
        r
    }

    /// The path to the file in the repository (escaped as needed).
    pub fn file_path(self, file_path: &str) -> (r: Self)
        ensures
            r.file_path matches Some(v) && v@ == file_path@,
            r.project == self.project,
            r.branch == self.branch,
            r.content == self.content,
            r.commit_message == self.commit_message,
            r.start_branch == self.start_branch,
            r.encoding == self.encoding,
            r.author_email == self.author_email,
            r.author_name == self.author_name,
    {
        let mut r = self;
        r.file_path = Some(file_path.to_owned());
        r
    }

    /// The branch to use for the new commit.
    pub fn branch(self, branch: &str) -> (r: Self)
        ensures
            r.branch matches Some(v) && v@ == branch@,
            r.project == self.project,
            r.file_path == self.file_path,
            r.content == self.content,
            r.commit_message == self.commit_message,
            r.start_branch == self.start_branch,
            r.encoding == self.encoding,
            r.author_email == self.author_email,
            r.author_name == self.author_name,
    {
        let mut r = self;
        r.branch = Some(branch.to_owned());
        r
    }

    /// The content of the file, encoded according to `encoding`.
    pub fn content(self, content: &[u8]) -> (r: Self)
        ensures
            r.content matches Some(v) && v@ == content@,
            r.project == self.project,
            r.file_path == self.file_path,
            r.branch == self.branch,
            r.commit_message == self.commit_message,
            r.start_branch == self.start_branch,
            r.encoding == self.encoding,
            r.author_email == self.author_email,
            r.author_name == self.author_name,
    {
        let mut r = self;
        r.content = Some(bytes_to_vec(content));
        r
    }

    /// The commit message to use.
    pub fn commit_message(self, commit_message: &str) -> (r: Self)
        ensures
            r.commit_message matches Some(v) && v@ == commit_message@,
            r.project == self.project,
            r.file_path == self.file_path,
            r.branch == self.branch,
            r.content == self.content,
            r.start_branch == self.start_branch,
            r.encoding == self.encoding,
            r.author_email == self.author_email,
            r.author_name == self.author_name,
    {
        let mut r = self;
        r.commit_message = Some(commit_message.to_owned());
        r
    }

    /// Where to start the branch from (if it does not already exist).
    pub fn start_branch(self, start_branch: &str) -> (r: Self)
        ensures
            r.start_branch matches Some(v) && v@ == start_branch@,
            r.project == self.project,
            r.file_path == self.file_path,
            r.branch == self.branch,
            r.content == self.content,
            r.commit_message == self.commit_message,
            r.encoding == self.encoding,
            r.author_email == self.author_email,
            r.author_name == self.author_name,
    {
        let mut r = self;
        r.start_branch = Some(start_branch.to_owned());
        r
    }

    /// The encoding to use for the content; content which is not UTF-8 is always sent in a binary-safe encoding.
    pub fn encoding(self, encoding: Encoding) -> (r: Self)
        ensures
            r.encoding == Some(encoding),
            r.project == self.project,
            r.file_path == self.file_path,
            r.branch == self.branch,
            r.content == self.content,
            r.commit_message == self.commit_message,
            r.start_branch == self.start_branch,
            r.author_email == self.author_email,
            r.author_name == self.author_name,
    {
        let mut r = self;
        r.encoding = Some(encoding);
        r
    }

    /// The email of the author for the new commit.
    pub fn author_email(self, author_email: &str) -> (r: Self)
        ensures
            r.author_email matches Some(v) && v@ == author_email@,
            r.project == self.project,
            r.file_path == self.file_path,
            r.branch == self.branch,
            r.content == self.content,
            r.commit_message == self.commit_message,
            r.start_branch == self.start_branch,
            r.encoding == self.encoding,
            r.author_name == self.author_name,
    {
        let mut r = self;
        r.author_email = Some(author_email.to_owned());
        r
    }

    /// The name of the author for the new commit.
    pub fn author_name(self, author_name: &str) -> (r: Self)
        ensures
            r.author_name matches Some(v) && v@ == author_name@,
            r.project == self.project,
            r.file_path == self.file_path,
            r.branch == self.branch,
            r.content == self.content,
            r.commit_message == self.commit_message,
            r.start_branch == self.start_branch,
            r.encoding == self.encoding,
            r.author_email == self.author_email,
    {
        let mut r = self;
        r.author_name = Some(author_name.to_owned());
        r
    }

    /// Build the endpoint (`project`, `file_path`, `branch`, `content`, `commit_message` must be set).
    pub fn build(self) -> (r: Result<UpdateFile, BuilderError>)
        ensures
            (self.project is None) ==> (r matches Err(e) && e.missing("project"@)),
            (self.project is Some && self.file_path is None) ==> (r matches Err(e) && e.missing("file_path"@)),
            (self.project is Some && self.file_path is Some && self.branch is None) ==> (r matches Err(e) && e.missing("branch"@)),
            (self.project is Some && self.file_path is Some && self.branch is Some && self.content is None) ==> (r matches Err(e) && e.missing("content"@)),
            (self.project is Some && self.file_path is Some && self.branch is Some && self.content is Some && self.commit_message is None) ==> (r matches Err(e) && e.missing("commit_message"@)),
            (self.project is Some && self.file_path is Some && self.branch is Some && self.content is Some && self.commit_message is Some) ==> (r matches Ok(v) && v.project == self.project->0 && v.file_path == self.file_path->0 && v.branch == self.branch->0 && v.content == self.content->0 && v.commit_message == self.commit_message->0 && v.start_branch == self.start_branch && v.encoding == self.encoding && v.author_email == self.author_email && v.author_name == self.author_name),
    {
        match self.project {
            None => Err(BuilderError::UninitializedField("project")),
            Some(project) => {
                match self.file_path {
                    None => Err(BuilderError::UninitializedField("file_path")),
                    Some(file_path) => {
                        match self.branch {
                            None => Err(BuilderError::UninitializedField("branch")),
                            Some(branch) => {
                                match self.content {
                                    None => Err(BuilderError::UninitializedField("content")),
                                    Some(content) => {
                                        match self.commit_message {
                                            None => Err(BuilderError::UninitializedField("commit_message")),
                                            Some(commit_message) => {
                                                Ok(UpdateFile { project, file_path, branch, content, commit_message, start_branch: self.start_branch, encoding: self.encoding, author_email: self.author_email, author_name: self.author_name })
                                            },
                                        }
                                    },
                                }
                            },
                        }
                    },
                }
            },
        }
    }
}

impl Endpoint for UpdateFile {
    open spec fn spec_method(&self) -> Method {
        Method::Put
    }

    open spec fn spec_endpoint(&self) -> Seq<char> {
        "projects/"@ + self.project.segment() + "/repository/files/"@ + ascii_chars(path_escape(vstd::utf8::encode_utf8(self.file_path@)))
    }

    open spec fn spec_parameters(&self) -> Seq<ParamView> {
        Seq::<ParamView>::empty()
    }

    open spec fn spec_body(&self) -> Option<Seq<ParamView>> {
        Some(seq![("branch"@, self.branch.spec_value())] + seq![("commit_message"@, self.commit_message.spec_value())] + opt_pair("start_branch"@, opt_value(self.start_branch)) + opt_pair("author_email"@, opt_value(self.author_email)) + opt_pair("author_name"@, opt_value(self.author_name)) + seq![("content"@, encoded_content(effective_encoding(self.encoding, self.content@), self.content@))] + opt_pair("encoding"@, encoding_param(self.encoding, effective_encoding(self.encoding, self.content@))))
    }

    fn method(&self) -> (r: Method) {
        Method::Put
    }

    fn endpoint(&self) -> (r: String) {
        let mut r = "projects/".to_owned();
        r.append(self.project.to_segment().as_str());
        r.append("/repository/files/");
        r.append(path_escaped(self.file_path.as_str()).as_str());
        r
    }

    fn parameters(&self) -> (r: Params) {
        let mut p = Params::new();
        assert(p@ =~= Seq::<ParamView>::empty());
        p
    }

    fn body(&self) -> (r: Option<(&'static str, Vec<u8>)>) {
        let (actual, text) = encode_content(self.encoding, self.content.as_slice());
        let mut p = Params::new();
        p.push("branch", &self.branch);
        p.push("commit_message", &self.commit_message);
        p.push_opt("start_branch", &self.start_branch);
        p.push_opt("author_email", &self.author_email);
        p.push_opt("author_name", &self.author_name);
        p.push_string("content", text);
        p.push_opt("encoding", &sent_encoding(self.encoding, actual));
        assert(p@ =~= seq![("branch"@, self.branch.spec_value())] + seq![("commit_message"@, self.commit_message.spec_value())] + opt_pair("start_branch"@, opt_value(self.start_branch)) + opt_pair("author_email"@, opt_value(self.author_email)) + opt_pair("author_name"@, opt_value(self.author_name)) + seq![("content"@, encoded_content(effective_encoding(self.encoding, self.content@), self.content@))] + opt_pair("encoding"@, encoding_param(self.encoding, effective_encoding(self.encoding, self.content@))));
        form_request_body(&p)
    }
}

} // verus!
