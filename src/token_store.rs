//! Token persistence: one JSON file per (program, scope hash), written by
//! staging to a side file and renaming it into place.
use vstd::prelude::*;
use yup_oauth2::Token;

verus! {

#[verifier::external_type_specification]
pub struct ExToken(yup_oauth2::Token);

#[verifier::external_type_specification]
#[verifier::external_body]
pub struct ExJsonError(serde_json::Error);

#[verifier::external_type_specification]
#[verifier::external_body]
pub struct ExIoError(std::io::Error);

#[verifier::external_type_specification]
#[verifier::external_body]
pub struct ExPathBuf(std::path::PathBuf);

/// The fields of a token: access token, refresh token, token type, relative
/// expiry and absolute expiry.
pub type TokenFields = (Seq<char>, Seq<char>, Seq<char>, Option<i64>, Option<i64>);

pub open spec fn fields_of(t: Token) -> TokenFields {
    (t.access_token@, t.refresh_token@, t.token_type@, t.expires_in, t.expires_in_timestamp)
}

/// The JSON bytes that serde_json writes for a token with these fields.
pub uninterp spec fn token_json(fields: (Seq<char>, Seq<char>, Seq<char>, Option<i64>, Option<i64>)) -> Seq<u8>;

/// Whether serde_json reads these bytes as a token.
pub uninterp spec fn token_json_accepted(bytes: Seq<u8>) -> bool;

/// The fields of the token that serde_json reads from these bytes.
pub uninterp spec fn token_from_json(bytes: Seq<u8>) -> (Seq<char>, Seq<char>, Seq<char>, Option<i64>, Option<i64>);

/// Whether an I/O error is of the kind "not found".
pub uninterp spec fn io_not_found(e: std::io::Error) -> bool;

/// The path that results from joining a file name onto a directory.
pub uninterp spec fn joined_path(dir: Seq<char>, name: Seq<char>) -> std::path::PathBuf;

pub open spec fn json_of(t: Token) -> Seq<u8> {
    token_json(fields_of(t))
}

/// Relies on serde_json::to_vec_pretty. It fails only where the value's
/// `Serialize` fails or a map has non-string keys; the derived `Serialize`
/// of `Token` writes three strings and two optional integers, so it succeeds.
#[verifier::external_body]
fn encode_token(token: &Token) -> (r: Result<Vec<u8>, serde_json::Error>)
    ensures
        r is Ok,
        r matches Ok(bytes) ==> bytes@ == token_json(fields_of(*token)),
{
    serde_json::to_vec_pretty(token)
}

/// Relies on serde_json::from_slice with the derived `Deserialize` of
/// `Token`. The result depends on the bytes alone; bytes that are not UTF-8,
/// not JSON or not a token are an error. What to_vec_pretty wrote for a token
/// reads back as the same fields: strings are escaped and read back exactly,
/// integers are written in full, and `None` is written as `null`, which
/// reads back as `None`.
#[verifier::external_body]
fn decode_token(bytes: &Vec<u8>) -> (r: Result<Token, serde_json::Error>)
    ensures
        r.is_ok() == token_json_accepted(bytes@),
        r matches Ok(t) ==> fields_of(t) == token_from_json(bytes@),
        r is Ok || forall|f: TokenFields| bytes@ != #[trigger] token_json(f),
        r matches Ok(t) ==> forall|f: TokenFields|
            bytes@ == #[trigger] token_json(f) ==> fields_of(t) == f,
{
    serde_json::from_slice(bytes)
}

/// Relies on std::io::Error::kind: tells a missing file from other failures.
#[verifier::external_body]
fn is_not_found(e: &std::io::Error) -> (r: bool)
    ensures
        r == io_not_found(*e),
{
    e.kind() == std::io::ErrorKind::NotFound
}

/// Relies on std::path::Path::join: appends a file name to a directory.
#[verifier::external_body]
fn join_path(dir: &str, name: &str) -> (r: std::path::PathBuf)
    ensures
        r == joined_path(dir@, name@),
{
    std::path::Path::new(dir).join(name)
}

/// Relies on serde_json::Error's `Display`: the error's own description.
#[verifier::external_body]
fn json_error_text(e: &serde_json::Error) -> String {
    format!("{}", e)
}

/// Relies on std::io::Error's `Display`: the error's own description.
#[verifier::external_body]
fn io_error_text(e: &std::io::Error) -> String {
    format!("{}", e)
}

/// Failure while reading or writing the token file.
pub enum TokenStorageError {
    /// The file's bytes are not a token, or the token could not be encoded.
    Json(serde_json::Error),
    /// The file system refused an operation.
    Io(std::io::Error),
}

impl TokenStorageError {
    /// A short description of this kind of failure.
    pub fn description(&self) -> (r: &'static str)
        ensures
            r@ == "Failure when getting or setting the token storage"@,
    {
        "Failure when getting or setting the token storage"
    }

    /// The leading words of the message shown to the user.
    pub fn headline(&self) -> (r: &'static str)
        ensures
            r@ == headline_text(*self),
    {
        match self {
            TokenStorageError::Json(_) => "Could not serialize secrets",
            TokenStorageError::Io(_) => "Failed to write secret token",
        }
    }

    /// The headline, then ": ", then the given detail.
    pub fn with_detail(&self, detail: &str) -> (r: String)
        ensures
            r@ == headline_text(*self) + ": "@ + detail@,
    {
        let mut s = String::from_str(self.headline());
        s.append(": ");
        s.append(detail);
        s
    }

    /// The message shown to the user: the headline, then the underlying
    /// error's own text.
    pub fn message(&self) -> (r: String)
        ensures
            exists|detail: Seq<char>| r@ == headline_text(*self) + ": "@ + detail,
    {
        let detail = match self {
            TokenStorageError::Json(e) => json_error_text(e),
            TokenStorageError::Io(e) => io_error_text(e),
        };
        self.with_detail(detail.as_str())
    }
}

pub open spec fn headline_text(e: TokenStorageError) -> Seq<char> {
    match e {
        TokenStorageError::Json(_) => "Could not serialize secrets"@,
        TokenStorageError::Io(_) => "Failed to write secret token"@,
    }
}

/// One step of a change to the token directory; names are relative to it.
pub enum FileOp {
    /// Delete the file; a file that is already gone counts as deleted.
    Remove { name: String },
    /// Create or truncate the file and write the bytes into it.
    Stage { name: String, bytes: Vec<u8> },
    /// Rename `from` to `to`, replacing `to`.
    Commit { from: String, to: String },
}

/// What a read of the token file gave, as the directory reported it.
pub enum FileRead {
    /// There is no such file.
    Missing,
    /// The read failed for another reason.
    Failed(std::io::Error),
    /// The whole contents of the file.
    Contents(Vec<u8>),
}

/// A step of a change as the proofs see it: names and contents as sequences.
pub enum FileOpModel {
    Remove(Seq<char>),
    Stage(Seq<char>, Seq<u8>),
    Commit(Seq<char>, Seq<char>),
}

impl View for FileOp {
    type V = FileOpModel;

    open spec fn view(&self) -> FileOpModel {
        match self {
            FileOp::Remove { name } => FileOpModel::Remove(name@),
            FileOp::Stage { name, bytes } => FileOpModel::Stage(name@, bytes@),
            FileOp::Commit { from, to } => FileOpModel::Commit(from@, to@),
        }
    }
}

/// A directory seen as a map from file names to their contents.
pub type Files = Map<Seq<char>, Seq<u8>>;

/// The directory after one step.
pub open spec fn apply_op(files: Files, op: FileOpModel) -> Files {
    match op {
        FileOpModel::Remove(name) => files.remove(name),
        FileOpModel::Stage(name, bytes) => files.insert(name, bytes),
        FileOpModel::Commit(from, to) => if files.contains_key(from) {
            files.remove(from).insert(to, files[from])
        } else {
            files
        },
    }
}

/// The directory after the steps, in order.
pub open spec fn apply_ops(files: Files, ops: Seq<FileOpModel>) -> Files
    decreases ops.len(),
{
    if ops.len() == 0 {
        files
    } else {
        apply_op(apply_ops(files, ops.drop_last()), ops.last())
    }
}

pub open spec fn digit_char(d: nat) -> char {
    if d == 0 { '0' }
    else if d == 1 { '1' }
    else if d == 2 { '2' }
    else if d == 3 { '3' }
    else if d == 4 { '4' }
    else if d == 5 { '5' }
    else if d == 6 { '6' }
    else if d == 7 { '7' }
    else if d == 8 { '8' }
    else { '9' }
}

/// The decimal digits of `n`, most significant first, without leading zeros.
pub open spec fn decimal(n: nat) -> Seq<char>
    decreases n,
{
    if n < 10 {
        seq![digit_char(n)]
    } else {
        decimal(n / 10).push(digit_char(n % 10))
    }
}

/// `{program}-token-{scope_hash}.json`
pub open spec fn token_file_name(program: Seq<char>, scope_hash: nat) -> Seq<char> {
    program + seq!['-', 't', 'o', 'k', 'e', 'n', '-'] + decimal(scope_hash) + seq![
        '.',
        'j',
        's',
        'o',
        'n',
    ]
}

/// The side file that a new token is staged in before it replaces the token file.
pub open spec fn staging_name(name: Seq<char>) -> Seq<char> {
    name + seq!['.', 't', 'm', 'p']
}

/// Stage the bytes in the side file, then rename it over the token file.
pub open spec fn write_plan(name: Seq<char>, bytes: Seq<u8>) -> Seq<FileOpModel> {
    seq![
        FileOpModel::Stage(staging_name(name), bytes),
        FileOpModel::Commit(staging_name(name), name),
    ]
}

/// Remove the token file.
pub open spec fn delete_plan(name: Seq<char>) -> Seq<FileOpModel> {
    seq![FileOpModel::Remove(name)]
}

fn digit_str(d: u64) -> (r: &'static str)
    requires
        d < 10,
    ensures
        r@ == seq![digit_char(d as nat)],
{
    proof {
        reveal_strlit("0");
        reveal_strlit("1");
        reveal_strlit("2");
        reveal_strlit("3");
        reveal_strlit("4");
        reveal_strlit("5");
        reveal_strlit("6");
        reveal_strlit("7");
        reveal_strlit("8");
        reveal_strlit("9");
    }
    if d == 0 { "0" }
    else if d == 1 { "1" }
    else if d == 2 { "2" }
    else if d == 3 { "3" }
    else if d == 4 { "4" }
    else if d == 5 { "5" }
    else if d == 6 { "6" }
    else if d == 7 { "7" }
    else if d == 8 { "8" }
    else { "9" }
}

/// The decimal text of `n`.
pub fn decimal_string(n: u64) -> (r: String)
    ensures
        r@ == decimal(n as nat),
    decreases n,
{
    if n < 10 {
        String::from_str(digit_str(n))
    } else {
        let mut s = decimal_string(n / 10);
        s.append(digit_str(n % 10));
        s
    }
}

/// Stores tokens as JSON files in one directory.
pub struct JsonTokenStorage {
    pub program_name: String,
    pub db_dir: String,
}

impl JsonTokenStorage {
    /// The name of the token file for a scope hash.
    pub fn file_name(&self, scope_hash: u64) -> (r: String)
        ensures
            r@ == token_file_name(self.program_name@, scope_hash as nat),
    {
        proof {
            reveal_strlit("-token-");
            reveal_strlit(".json");
        }
        let mut s = self.program_name.clone();
        s.append("-token-");
        let digits = decimal_string(scope_hash);
        s.append(digits.as_str());
        s.append(".json");
        s
    }

    /// The path of a file of the token directory.
    pub fn path_of(&self, name: &str) -> (r: std::path::PathBuf)
        ensures
            r == joined_path(self.db_dir@, name@),
    {
        join_path(self.db_dir.as_str(), name)
    }

    /// The path of the token file for a scope hash.
    pub fn path(&self, scope_hash: u64) -> (r: std::path::PathBuf)
        ensures
            r == joined_path(self.db_dir@, token_file_name(self.program_name@, scope_hash as nat)),
    {
        let name = self.file_name(scope_hash);
        self.path_of(name.as_str())
    }

    /// The steps that store `token` for a scope hash, or remove the stored
    /// one when `token` is `None`.
    pub fn set_plan(&self, scope_hash: u64, token: &Option<Token>) -> (r: Result<
        Vec<FileOp>,
        TokenStorageError,
    >)
        ensures
            ({
                let name = token_file_name(self.program_name@, scope_hash as nat);
                match token {
                    None => r matches Ok(ops) && ops@.map_values(|op: FileOp| op@)
                        == delete_plan(name),
                    Some(t) => r matches Ok(ops) && ops@.map_values(|op: FileOp| op@)
                        == write_plan(name, json_of(*t)),
                }
            }),
    {
        let name = self.file_name(scope_hash);
        match token {
            None => {
                let ops = vec![FileOp::Remove { name }];
                proof {
                    assert(ops@.map_values(|op: FileOp| op@) =~= delete_plan(name@));
                }
                Ok(ops)
            },
            Some(t) => match encode_token(t) {
                Err(e) => Err(TokenStorageError::Json(e)),
                Ok(bytes) => {
                    proof {
                        reveal_strlit(".tmp");
                    }
                    let ghost name_v = name@;
                    let mut staged = name.clone();
                    staged.append(".tmp");
                    assert(staged@ == staging_name(name_v));
                    let staged2 = staged.clone();
                    let ops = vec![
                        FileOp::Stage { name: staged, bytes },
                        FileOp::Commit { from: staged2, to: name },
                    ];
                    proof {
                        assert(ops@.map_values(|op: FileOp| op@) =~= write_plan(
                            token_file_name(self.program_name@, scope_hash as nat),
                            json_of(*t),
                        ));
                    }
                    Ok(ops)
                },
            },
        }
    }
}

/// What one performed step of a plan means for the whole change: a missing
/// file is no failure when it was to be removed.
pub fn op_outcome(op: &FileOp, result: Result<(), std::io::Error>) -> (r: Result<
    (),
    TokenStorageError,
>)
    ensures
        result is Ok ==> r is Ok,
        result matches Err(e) ==> match op {
            FileOp::Remove { .. } => if io_not_found(e) {
                r is Ok
            } else {
                r == Err::<(), TokenStorageError>(TokenStorageError::Io(e))
            },
            _ => r == Err::<(), TokenStorageError>(TokenStorageError::Io(e)),
        },
{
    match result {
        Ok(()) => Ok(()),
        Err(e) => match op {
            FileOp::Remove { .. } => {
                if is_not_found(&e) {
                    Ok(())
                } else {
                    Err(TokenStorageError::Io(e))
                }
            },
            _ => Err(TokenStorageError::Io(e)),
        },
    }
}

/// The result of looking up a token from what a read of its file gave.
pub fn get_outcome(read: FileRead) -> (r: Result<Option<Token>, TokenStorageError>)
    ensures
        match read {
            FileRead::Missing => r == Ok::<Option<Token>, TokenStorageError>(None),
            FileRead::Failed(e) => r == Err::<Option<Token>, TokenStorageError>(
                TokenStorageError::Io(e),
            ),
            FileRead::Contents(bytes) => if token_json_accepted(bytes@) {
                r matches Ok(Some(t)) && fields_of(t) == token_from_json(bytes@)
            } else {
                r matches Err(TokenStorageError::Json(_))
            },
        },
        read matches FileRead::Contents(bytes) ==> forall|f: TokenFields|
            bytes@ == #[trigger] token_json(f) ==> (r matches Ok(Some(t)) && fields_of(t) == f),
{
    match read {
        FileRead::Missing => Ok(None),
        FileRead::Failed(e) => Err(TokenStorageError::Io(e)),
        FileRead::Contents(bytes) => match decode_token(&bytes) {
            Ok(t) => Ok(Some(t)),
            Err(e) => Err(TokenStorageError::Json(e)),
        },
    }
}

/// What a failed read means: a missing file is told apart from other failures.
pub fn read_failure(e: std::io::Error) -> (r: FileRead)
    ensures
        if io_not_found(e) {
            r is Missing
        } else {
            r == FileRead::Failed(e)
        },
{
    if is_not_found(&e) {
        FileRead::Missing
    } else {
        FileRead::Failed(e)
    }
}

/// The step that clears up after a failed step of a write: the staging file
/// that a failed write or rename leaves behind is removed.
pub fn cleanup_after(failed: &FileOp) -> (r: Option<FileOp>)
    ensures
        match failed@ {
            FileOpModel::Stage(name, _) => r matches Some(op) && op@ == FileOpModel::Remove(name),
            FileOpModel::Commit(from, _) => r matches Some(op) && op@ == FileOpModel::Remove(from),
            FileOpModel::Remove(_) => r is None,
        },
{
    match failed {
        FileOp::Stage { name, .. } => Some(FileOp::Remove { name: name.clone() }),
        FileOp::Commit { from, .. } => Some(FileOp::Remove { name: from.clone() }),
        FileOp::Remove { .. } => None,
    }
}

proof fn lemma_staging_differs(name: Seq<char>)
    ensures
        staging_name(name) != name,
{
    assert(staging_name(name).len() != name.len());
}

/// After the steps that store a token have run, the token file holds
/// exactly the token's bytes, the staging file is gone, and every other
/// file is as it was.
pub proof fn lemma_write_stores_bytes(files: Files, name: Seq<char>, bytes: Seq<u8>)
    ensures
        apply_ops(files, write_plan(name, bytes)) == files.remove(staging_name(name)).insert(
            name,
            bytes,
        ),
{
    let plan = write_plan(name, bytes);
    let tmp = staging_name(name);
    lemma_staging_differs(name);
    assert(plan.drop_last().drop_last() =~= Seq::<FileOpModel>::empty());
    assert(plan.drop_last().last() == FileOpModel::Stage(tmp, bytes));
    assert(plan.last() == FileOpModel::Commit(tmp, name));
    reveal_with_fuel(apply_ops, 3);
    assert(apply_ops(files, plan) =~= files.remove(tmp).insert(name, bytes));
}

/// A write stopped before its last step (the rename) leaves every file but
/// the staging file as it was; in particular the previous token file.
pub proof fn lemma_interrupted_write_keeps_previous(
    files: Files,
    name: Seq<char>,
    bytes: Seq<u8>,
    done: int,
)
    requires
        0 <= done < write_plan(name, bytes).len(),
    ensures
        apply_ops(files, write_plan(name, bytes).take(done)).remove(staging_name(name))
            == files.remove(staging_name(name)),
        apply_ops(files, write_plan(name, bytes).take(done)).contains_key(name)
            == files.contains_key(name),
        files.contains_key(name) ==> apply_ops(files, write_plan(name, bytes).take(done))[name]
            == files[name],
{
    let plan = write_plan(name, bytes);
    let tmp = staging_name(name);
    lemma_staging_differs(name);
    if done == 0 {
        assert(plan.take(0) =~= Seq::<FileOpModel>::empty());
        assert(apply_ops(files, plan.take(0)) == files);
    } else {
        let part = plan.take(1);
        assert(part.drop_last() =~= Seq::<FileOpModel>::empty());
        assert(part.last() == FileOpModel::Stage(tmp, bytes));
        reveal_with_fuel(apply_ops, 2);
        assert(apply_ops(files, part) == files.insert(tmp, bytes));
        assert(files.insert(tmp, bytes).remove(tmp) =~= files.remove(tmp));
    }
}

/// A write whose step `failed` fails, whatever that step left in the staging
/// file, followed by removing the staging file, leaves the directory as it
/// was but for the staging file, which is gone.
pub proof fn lemma_failed_write_leaves_previous(
    files: Files,
    name: Seq<char>,
    bytes: Seq<u8>,
    failed: int,
    left: Files,
)
    requires
        0 <= failed < write_plan(name, bytes).len(),
        left.remove(staging_name(name)) == apply_ops(files, write_plan(name, bytes).take(failed)).remove(
            staging_name(name),
        ),
    ensures
        apply_op(left, FileOpModel::Remove(staging_name(name))) == files.remove(staging_name(name)),
{
    lemma_interrupted_write_keeps_previous(files, name, bytes, failed);
}

/// Removing a token leaves no token file, whether or not one existed, and
/// every other file as it was.
pub proof fn lemma_delete_leaves_nothing(files: Files, name: Seq<char>)
    ensures
        apply_ops(files, delete_plan(name)) == files.remove(name),
        !apply_ops(files, delete_plan(name)).contains_key(name),
{
    let plan = delete_plan(name);
    assert(plan.drop_last() =~= Seq::<FileOpModel>::empty());
    reveal_with_fuel(apply_ops, 2);
}

} // verus!
