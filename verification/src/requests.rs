//! The arguments of each tool call, checked before any request is made.
//!
//! A tool that acts in the account first needs a chosen profile; then each
//! required argument, in the order the tool lists them, must be a string.
use vstd::prelude::*;
use vstd::utf8::encode_utf8;
use vstd::wrapping::i64_specs;
use crate::error::{ErrorView, ToolError};
use crate::profile::{ProfileView, SsoProfile};
use crate::state::{AuthState, active_profile, spec_active};
use crate::text::concat_str;
use crate::manifest::{all_tools, lemma_tool_names_distinct, manifest, manifest_entry, tools_view, ToolSpec};

verus! {

/// A top-level member of a tool's `arguments` object, as far as the tools
/// read it. Numbers keep how JSON parsing stored them: a non-negative
/// integer, a negative integer, or anything else.
pub enum ArgValue {
    Null,
    Bool(bool),
    PosInt(u64),
    NegInt(i64),
    Float,
    Text(String),
    Array,
    Object,
}

/// The members of a tool's `arguments` object (empty when it is no object).
pub struct ToolArgs {
    pub entries: Vec<(String, ArgValue)>,
}

/// The member `key` of `args`; `Null` where there is none.
pub open spec fn arg(entries: Seq<(String, ArgValue)>, key: Seq<char>) -> ArgValue
    decreases entries.len(),
{
    if entries.len() == 0 {
        ArgValue::Null
    } else if entries[0].0@ == key {
        entries[0].1
    } else {
        arg(entries.drop_first(), key)
    }
}

/// The member `key` where it is a string.
pub open spec fn text_arg(args: ToolArgs, key: Seq<char>) -> Option<Seq<char>> {
    match arg(args.entries@, key) {
        ArgValue::Text(s) => Some(s@),
        _ => None,
    }
}

/// The member `key` where it is an integer that fits `i64` (`as_i64`).
pub open spec fn int_arg(args: ToolArgs, key: Seq<char>) -> Option<i64> {
    match arg(args.entries@, key) {
        ArgValue::PosInt(n) => if n <= i64::MAX {
            Some(n as i64)
        } else {
            None
        },
        ArgValue::NegInt(n) => Some(n),
        _ => None,
    }
}

/// The member `key` where it is a non-negative integer (`as_u64`).
pub open spec fn uint_arg(args: ToolArgs, key: Seq<char>) -> Option<u64> {
    match arg(args.entries@, key) {
        ArgValue::PosInt(n) => Some(n),
        _ => None,
    }
}

/// A required string member, or `MissingParam` naming it.
pub open spec fn need(args: ToolArgs, key: Seq<char>) -> Result<Seq<char>, ErrorView> {
    match text_arg(args, key) {
        Some(s) => Ok(s),
        None => Err(ErrorView::MissingParam(key)),
    }
}

pub open spec fn opt_text(o: Option<String>) -> Option<Seq<char>> {
    match o {
        Some(s) => Some(s@),
        None => None,
    }
}

/// An optional integer cut to `i32` as a cast does.
pub open spec fn to_i32(o: Option<i64>) -> Option<i32> {
    match o {
        Some(v) => Some(v as i32),
        None => None,
    }
}

impl ToolArgs {
    /// The member `key`, if any.
    pub fn get(&self, key: &str) -> (r: Option<&ArgValue>)
        ensures
            match r {
                Some(v) => *v == arg(self.entries@, key@),
                None => arg(self.entries@, key@) == ArgValue::Null,
            },
    {
        let target = String::from_str(key);
        let n = self.entries.len();
        let mut i: usize = 0;
        assert(self.entries@.skip(0) =~= self.entries@);
        while i < n
            invariant
                n == self.entries@.len(),
                i <= n,
                target@ == key@,
                arg(self.entries@, key@) == arg(self.entries@.skip(i as int), key@),
            decreases n - i,
        {
            assert(self.entries@.skip(i as int)[0] == self.entries@[i as int]);
            if self.entries[i].0 == target {
                return Some(&self.entries[i].1);
            }
            assert(self.entries@.skip(i as int).drop_first() =~= self.entries@.skip(i + 1));
            i = i + 1;
        }
        None
    }

    /// The member `key` where it is a string.
    pub fn text(&self, key: &str) -> (r: Option<String>)
        ensures
            opt_text(r) == text_arg(*self, key@),
    {
        match self.get(key) {
            Some(ArgValue::Text(s)) => Some(s.clone()),
            _ => None,
        }
    }

    /// The member `key` where it is an integer that fits `i64`.
    pub fn integer(&self, key: &str) -> (r: Option<i64>)
        ensures
            r == int_arg(*self, key@),
    {
        match self.get(key) {
            Some(ArgValue::PosInt(n)) => if *n <= i64::MAX as u64 {
                Some(*n as i64)
            } else {
                None
            },
            Some(ArgValue::NegInt(n)) => Some(*n),
            _ => None,
        }
    }

    /// The member `key` where it is a non-negative integer.
    pub fn uint(&self, key: &str) -> (r: Option<u64>)
        ensures
            r == uint_arg(*self, key@),
    {
        match self.get(key) {
            Some(ArgValue::PosInt(n)) => Some(*n),
            _ => None,
        }
    }

    /// The member `key` where it is an integer, cut to `i32`.
    pub fn int32(&self, key: &str) -> (r: Option<i32>)
        ensures
            r == to_i32(int_arg(*self, key@)),
    {
        match self.integer(key) {
            Some(v) => Some(v as i32),
            None => None,
        }
    }

    /// A required string member, or `MissingParam` naming it.
    pub fn required(&self, key: &str) -> (r: Result<String, ToolError>)
        ensures
            match (r, need(*self, key@)) {
                (Ok(s), Ok(t)) => s@ == t,
                (Err(e), Err(f)) => e@ == f,
                _ => false,
            },
    {
        match self.text(key) {
            Some(s) => Ok(s),
            None => Err(ToolError::MissingParam(String::from_str(key))),
        }
    }
}

/// The first failure among a chosen profile and required arguments, in order.
pub open spec fn first_error(
    state: Option<ProfileView>,
    a: Result<Seq<char>, ErrorView>,
    b: Result<Seq<char>, ErrorView>,
    c: Result<Seq<char>, ErrorView>,
) -> Option<ErrorView> {
    match (spec_active(state), a, b, c) {
        (Err(e), _, _, _) => Some(e),
        (Ok(_), Err(e), _, _) => Some(e),
        (Ok(_), Ok(_), Err(e), _) => Some(e),
        (Ok(_), Ok(_), Ok(_), Err(e)) => Some(e),
        _ => None,
    }
}

/// A check that always passes, for tools with fewer required arguments.
pub open spec fn nothing() -> Result<Seq<char>, ErrorView> {
    Ok(seq![])
}

/// The listed tools that read or change the accounts themselves, and so
/// need no chosen profile.
pub open spec fn is_account_tool(name: Seq<char>) -> bool {
    name == "list_accounts"@ || name == "switch_account"@ || name == "sso_login"@
}

/// The first of `required` that `args` lacks as a string.
pub open spec fn first_missing(args: ToolArgs, required: Seq<Seq<char>>) -> Option<ErrorView>
    decreases required.len(),
{
    if required.len() == 0 {
        None
    } else {
        match need(args, required[0]) {
            Err(e) => Some(e),
            Ok(_) => first_missing(args, required.drop_first()),
        }
    }
}

/// Whether the manifest lists a tool named `name`.
pub open spec fn listed(name: Seq<char>) -> bool {
    exists|i: int| 0 <= i < manifest().len() && #[trigger] manifest()[i].name == name
}

/// The position of the listed tool `name` in the manifest.
pub open spec fn tool_index(name: Seq<char>) -> int {
    choose|i: int| 0 <= i < manifest().len() && #[trigger] manifest()[i].name == name
}

/// How a call of tool `name` fails before any request is made: a listed tool
/// that acts in the account first needs a chosen profile; then each argument
/// that the manifest marks required, in the manifest's order, must be a
/// string. A tool that the manifest does not list is not checked here.
pub open spec fn call_error(name: Seq<char>, state: Option<ProfileView>, args: ToolArgs) -> Option<ErrorView> {
    if !listed(name) {
        None
    } else {
        let required = manifest()[tool_index(name)].required;
        if is_account_tool(name) {
            first_missing(args, required)
        } else {
            match spec_active(state) {
                Err(e) => Some(e),
                Ok(_) => first_missing(args, required),
            }
        }
    }
}

/// Whether `tool` is one of the account tools.
fn is_account_tool_name(tool: &str) -> (b: bool)
    ensures
        b == is_account_tool(tool@),
{
    let t = String::from_str(tool);
    t == String::from_str("list_accounts") || t == String::from_str("switch_account")
        || t == String::from_str("sso_login")
}

/// The first of `required` that `args` lacks, as `MissingParam`.
fn check_required(required: &Vec<String>, args: &ToolArgs) -> (r: Result<(), ToolError>)
    ensures
        err_view(r) == first_missing(*args, required@.map_values(|s: String| s@)),
{
    let ghost full = required@.map_values(|s: String| s@);
    let mut j: usize = 0;
    assert(full.skip(0) =~= full);
    while j < required.len()
        invariant
            j <= required@.len(),
            full == required@.map_values(|s: String| s@),
            first_missing(*args, full) == first_missing(*args, full.skip(j as int)),
        decreases required.len() - j,
    {
        assert(full.skip(j as int)[0] == required@[j as int]@);
        match args.required(required[j].as_str()) {
            Err(e) => {
                return Err(e);
            },
            Ok(_) => {},
        }
        assert(full.skip(j as int).drop_first() =~= full.skip(j + 1));
        j = j + 1;
    }
    assert(full.skip(j as int).len() == 0);
    Ok(())
}

/// The failure of a single check, if any.
pub open spec fn missing(r: Result<Seq<char>, ErrorView>) -> Option<ErrorView> {
    match r {
        Err(e) => Some(e),
        Ok(_) => None,
    }
}

/// The check of the `k`-th required argument, where there is one.
pub open spec fn need_at(args: ToolArgs, required: Seq<Seq<char>>, k: int) -> Result<Seq<char>, ErrorView> {
    if k < required.len() {
        need(args, required[k])
    } else {
        nothing()
    }
}

/// The call of the tool at position `i` is found at that position.
proof fn lemma_tool_index(i: int)
    requires
        0 <= i < manifest().len(),
    ensures
        listed(manifest_entry(i).name),
        tool_index(manifest_entry(i).name) == i,
{
    lemma_tool_names_distinct();
    let n = manifest()[i].name;
    assert(listed(n));
    let j = tool_index(n);
    assert(0 <= j < manifest().len() && manifest()[j].name == n);
    if j < i {
        assert(manifest()[j].name != manifest()[i].name);
    } else if j > i {
        assert(manifest()[i].name != manifest()[j].name);
    }
}

/// The failure that the manifest prescribes for a tool past the account
/// tools: a chosen profile, then its (at most three) required arguments.
proof fn lemma_call_error_at(i: int, state: Option<ProfileView>, args: ToolArgs)
    requires
        3 <= i < manifest().len(),
    ensures
        call_error(manifest_entry(i).name, state, args) == first_error(
            state,
            need_at(args, manifest_entry(i).required, 0),
            need_at(args, manifest_entry(i).required, 1),
            need_at(args, manifest_entry(i).required, 2),
        ),
{
    lemma_tool_index(i);
    lemma_tool_names_distinct();
    assert(manifest()[0].name != manifest()[i].name);
    assert(manifest()[1].name != manifest()[i].name);
    assert(manifest()[2].name != manifest()[i].name);
    let req = manifest_entry(i).required;
    assert(req.len() <= 3);
    reveal_with_fuel(first_missing, 4);
}

/// The failure that the manifest prescribes for an account tool: only its
/// required arguments.
proof fn lemma_account_call_error_at(i: int, state: Option<ProfileView>, args: ToolArgs)
    requires
        0 <= i < 3,
    ensures
        call_error(manifest_entry(i).name, state, args) == first_missing(args, manifest_entry(i).required),
{
    lemma_tool_index(i);
}

/// Each tool's checks fail as the manifest prescribes for that tool, and so
/// as its request builder does: `list_accounts` never fails them; the other
/// account tools need only `profile`; every other tool first needs a chosen
/// profile, then the arguments that its builder asks for, in the order the
/// builder asks for them.
pub proof fn lemma_request_checks_follow_manifest(state: Option<ProfileView>, args: ToolArgs)
    ensures
        call_error("list_accounts"@, state, args) == None::<ErrorView>,
        call_error("switch_account"@, state, args) == missing(need(args, "profile"@)),
        call_error("sso_login"@, state, args) == missing(need(args, "profile"@)),
        call_error("s3_list_buckets"@, state, args) == first_error(state, nothing(), nothing(), nothing()),
        call_error("s3_list_objects"@, state, args) == first_error(state, need(args, "bucket"@), nothing(), nothing()),
        call_error("s3_get_object"@, state, args) == first_error(state, need(args, "bucket"@), need(args, "key"@), nothing()),
        call_error("s3_put_object"@, state, args) == first_error(
            state,
            need(args, "bucket"@),
            need(args, "key"@),
            need(args, "body"@),
        ),
        call_error("s3_delete_object"@, state, args) == first_error(state, need(args, "bucket"@), need(args, "key"@), nothing()),
        call_error("s3_presign"@, state, args) == first_error(state, need(args, "bucket"@), need(args, "key"@), nothing()),
        call_error("lambda_list"@, state, args) == first_error(state, nothing(), nothing(), nothing()),
        call_error("lambda_invoke"@, state, args) == first_error(state, need(args, "name"@), nothing(), nothing()),
        call_error("lambda_get_logs"@, state, args) == first_error(state, need(args, "name"@), nothing(), nothing()),
        call_error("logs_list_groups"@, state, args) == first_error(state, nothing(), nothing(), nothing()),
        call_error("logs_list_streams"@, state, args) == first_error(state, need(args, "group"@), nothing(), nothing()),
        call_error("logs_tail"@, state, args) == first_error(state, need(args, "group"@), nothing(), nothing()),
        call_error("logs_search"@, state, args) == first_error(state, need(args, "group"@), need(args, "query"@), nothing()),
        call_error("ecs_list_clusters"@, state, args) == first_error(state, nothing(), nothing(), nothing()),
        call_error("ecs_list_services"@, state, args) == first_error(state, need(args, "cluster"@), nothing(), nothing()),
        call_error("ecs_list_tasks"@, state, args) == first_error(state, need(args, "cluster"@), nothing(), nothing()),
        call_error("ecs_describe_task"@, state, args) == first_error(
            state,
            need(args, "cluster"@),
            need(args, "task_arn"@),
            nothing(),
        ),
        call_error("ecr_list_repos"@, state, args) == first_error(state, nothing(), nothing(), nothing()),
        call_error("ecr_list_images"@, state, args) == first_error(state, need(args, "repo"@), nothing(), nothing()),
{
    reveal_with_fuel(first_missing, 2);
    lemma_account_call_error_at(0, state, args);
    lemma_account_call_error_at(1, state, args);
    lemma_account_call_error_at(2, state, args);
    assert(seq!["profile"@].drop_first().len() == 0);
    lemma_call_error_at(3, state, args);
    lemma_call_error_at(4, state, args);
    lemma_call_error_at(5, state, args);
    lemma_call_error_at(6, state, args);
    lemma_call_error_at(7, state, args);
    lemma_call_error_at(8, state, args);
    lemma_call_error_at(9, state, args);
    lemma_call_error_at(10, state, args);
    lemma_call_error_at(11, state, args);
    lemma_call_error_at(12, state, args);
    lemma_call_error_at(13, state, args);
    lemma_call_error_at(14, state, args);
    lemma_call_error_at(15, state, args);
    lemma_call_error_at(16, state, args);
    lemma_call_error_at(17, state, args);
    lemma_call_error_at(18, state, args);
    lemma_call_error_at(19, state, args);
    lemma_call_error_at(20, state, args);
    lemma_call_error_at(21, state, args);
}

/// The checks that every tool handler makes before any request: a chosen
/// profile for a tool that acts in the account, then the required
/// arguments in the manifest's order.
pub fn check_call(tool: &str, state: &AuthState, args: &ToolArgs) -> (r: Result<(), ToolError>)
    ensures
        err_view(r) == call_error(tool@, state@, *args),
{
    let tools = all_tools();
    let name = String::from_str(tool);
    let mut i: usize = 0;
    while i < tools.len()
        invariant
            tools_view(tools@) == manifest(),
            name@ == tool@,
            i <= tools@.len(),
            forall|k: int| 0 <= k < i ==> #[trigger] manifest()[k].name != tool@,
        decreases tools.len() - i,
    {
        assert(manifest()[i as int] == tools@[i as int]@);
        if tools[i].name == name {
            proof {
                let j = tool_index(tool@);
                assert(manifest()[i as int].name == tool@);
                assert(listed(tool@));
                lemma_tool_names_distinct();
                assert(0 <= j < manifest().len() && manifest()[j].name == tool@);
                if j < i as int {
                    assert(manifest()[j].name != manifest()[i as int].name);
                } else if j > i as int {
                    assert(manifest()[i as int].name != manifest()[j].name);
                }
                assert(j == i as int);
                assert(manifest()[i as int].required =~= tools@[i as int].required@.map_values(
                    |s: String| s@,
                ));
            }
            if !is_account_tool_name(tool) {
                match active_profile(state) {
                    Err(e) => {
                        return Err(e);
                    },
                    Ok(_) => {},
                }
            }
            return check_required(&tools[i].required, args);
        }
        i = i + 1;
    }
    Ok(())
}

/// A request on one object of S3.
pub struct S3Request {
    pub profile: SsoProfile,
    pub bucket: String,
    pub key: String,
}

/// `s3_list_objects`: a bucket, an optional key prefix and an optional limit.
pub struct ListObjectsRequest {
    pub profile: SsoProfile,
    pub bucket: String,
    pub prefix: Option<String>,
    pub max_keys: Option<i32>,
}

/// The error of a check's result, if it failed.
pub open spec fn err_view<T>(r: Result<T, ToolError>) -> Option<ErrorView> {
    match r {
        Ok(_) => None,
        Err(e) => Some(e@),
    }
}

/// `s3_list_objects` needs a profile and `bucket`; `prefix` and `max_keys`
/// are optional.
pub fn list_objects_request(state: &AuthState, args: &ToolArgs) -> (r: Result<ListObjectsRequest, ToolError>)
    ensures
        err_view(r) == first_error(state@, need(*args, "bucket"@), nothing(), nothing()),
        r matches Ok(q) ==> {
            &&& spec_active(state@) == Ok::<ProfileView, ErrorView>(q.profile@)
            &&& need(*args, "bucket"@) == Ok::<Seq<char>, ErrorView>(q.bucket@)
            &&& opt_text(q.prefix) == text_arg(*args, "prefix"@)
            &&& q.max_keys == to_i32(int_arg(*args, "max_keys"@))
        },
{
    let profile = active_profile(state)?;
    let bucket = args.required("bucket")?;
    let prefix = args.text("prefix");
    let max_keys = args.int32("max_keys");
    Ok(ListObjectsRequest { profile, bucket, prefix, max_keys })
}

/// A request on one object needs a profile, `bucket` and `key`
/// (`s3_get_object`, `s3_delete_object`).
pub fn object_request(state: &AuthState, args: &ToolArgs) -> (r: Result<S3Request, ToolError>)
    ensures
        err_view(r) == first_error(state@, need(*args, "bucket"@), need(*args, "key"@), nothing()),
        r matches Ok(q) ==> {
            &&& spec_active(state@) == Ok::<ProfileView, ErrorView>(q.profile@)
            &&& need(*args, "bucket"@) == Ok::<Seq<char>, ErrorView>(q.bucket@)
            &&& need(*args, "key"@) == Ok::<Seq<char>, ErrorView>(q.key@)
        },
{
    let profile = active_profile(state)?;
    let bucket = args.required("bucket")?;
    let key = args.required("key")?;
    Ok(S3Request { profile, bucket, key })
}

/// `s3_put_object`: an object and the UTF-8 bytes of its text body.
pub struct PutObjectRequest {
    pub target: S3Request,
    pub body: Vec<u8>,
}

/// The UTF-8 bytes of a text (`str::as_bytes`).
pub fn utf8_bytes(s: &String) -> (b: Vec<u8>)
    ensures
        b@ == encode_utf8(s@),
{
    let bytes = s.as_str().as_bytes();
    let mut v: Vec<u8> = Vec::new();
    let mut i: usize = 0;
    while i < bytes.len()
        invariant
            i <= bytes@.len(),
            bytes@ == encode_utf8(s@),
            v@ == bytes@.take(i as int),
        decreases bytes@.len() - i,
    {
        v.push(bytes[i]);
        i = i + 1;
        assert(v@ =~= bytes@.take(i as int));
    }
    assert(bytes@.take(bytes@.len() as int) =~= bytes@);
    v
}

/// `s3_put_object` needs a profile, `bucket`, `key` and `body`.
pub fn put_object_request(state: &AuthState, args: &ToolArgs) -> (r: Result<PutObjectRequest, ToolError>)
    ensures
        err_view(r) == first_error(state@, need(*args, "bucket"@), need(*args, "key"@), need(*args, "body"@)),
        r matches Ok(q) ==> {
            &&& spec_active(state@) == Ok::<ProfileView, ErrorView>(q.target.profile@)
            &&& need(*args, "bucket"@) == Ok::<Seq<char>, ErrorView>(q.target.bucket@)
            &&& need(*args, "key"@) == Ok::<Seq<char>, ErrorView>(q.target.key@)
            &&& need(*args, "body"@) matches Ok(body) && q.body@ == encode_utf8(body)
        },
{
    let profile = active_profile(state)?;
    let bucket = args.required("bucket")?;
    let key = args.required("key")?;
    let body = args.required("body")?;
    let body = utf8_bytes(&body);
    Ok(PutObjectRequest { target: S3Request { profile, bucket, key }, body })
}

/// `s3_presign`: an object and how long the link lasts.
pub struct PresignRequest {
    pub target: S3Request,
    pub expires_secs: u64,
}

/// `s3_presign` needs a profile, `bucket` and `key`; `expires_secs` defaults
/// to an hour.
pub fn presign_request(state: &AuthState, args: &ToolArgs) -> (r: Result<PresignRequest, ToolError>)
    ensures
        err_view(r) == first_error(state@, need(*args, "bucket"@), need(*args, "key"@), nothing()),
        r matches Ok(q) ==> {
            &&& spec_active(state@) == Ok::<ProfileView, ErrorView>(q.target.profile@)
            &&& need(*args, "bucket"@) == Ok::<Seq<char>, ErrorView>(q.target.bucket@)
            &&& need(*args, "key"@) == Ok::<Seq<char>, ErrorView>(q.target.key@)
            &&& q.expires_secs == match uint_arg(*args, "expires_secs"@) {
                Some(v) => v,
                None => 3600,
            }
        },
{
    let target = object_request(state, args)?;
    let expires_secs = match args.uint("expires_secs") {
        Some(v) => v,
        None => 3600,
    };
    Ok(PresignRequest { target, expires_secs })
}

/// A request that needs a profile and one named string argument, with the
/// other arguments that the tool reads.
pub struct NamedRequest {
    pub profile: SsoProfile,
    /// The required argument (`group`, `name`, `cluster` or `repo`).
    pub target: String,
    /// The optional string argument (`stream`, `service`), where the tool has one.
    pub option: Option<String>,
    /// The optional integer argument (`limit`, `since`, `tail`, `max`), where the tool has one.
    pub number: Option<i64>,
}

/// A request for a tool whose one required argument is `target`, with the
/// optional string argument `option` and the optional integer argument
/// `number` where the tool takes them.
pub fn named_request(
    state: &AuthState,
    args: &ToolArgs,
    target: &str,
    option: Option<&str>,
    number: Option<&str>,
) -> (r: Result<NamedRequest, ToolError>)
    ensures
        err_view(r) == first_error(state@, need(*args, target@), nothing(), nothing()),
        r matches Ok(q) ==> {
            &&& spec_active(state@) == Ok::<ProfileView, ErrorView>(q.profile@)
            &&& need(*args, target@) == Ok::<Seq<char>, ErrorView>(q.target@)
            &&& opt_text(q.option) == match option {
                Some(k) => text_arg(*args, k@),
                None => None,
            }
            &&& q.number == match number {
                Some(k) => int_arg(*args, k@),
                None => None,
            }
        },
{
    let profile = active_profile(state)?;
    let target = args.required(target)?;
    let option = match option {
        Some(k) => args.text(k),
        None => None,
    };
    let number = match number {
        Some(k) => args.integer(k),
        None => None,
    };
    Ok(NamedRequest { profile, target, option, number })
}

/// `logs_search`: a log group, a filter pattern and how far back to look.
pub struct SearchRequest {
    pub profile: SsoProfile,
    pub group: String,
    pub query: String,
    pub since_secs: Option<i64>,
}

/// `logs_search` needs a profile, `group` and `query`; `since` is optional.
pub fn search_request(state: &AuthState, args: &ToolArgs) -> (r: Result<SearchRequest, ToolError>)
    ensures
        err_view(r) == first_error(state@, need(*args, "group"@), need(*args, "query"@), nothing()),
        r matches Ok(q) ==> {
            &&& spec_active(state@) == Ok::<ProfileView, ErrorView>(q.profile@)
            &&& need(*args, "group"@) == Ok::<Seq<char>, ErrorView>(q.group@)
            &&& need(*args, "query"@) == Ok::<Seq<char>, ErrorView>(q.query@)
            &&& q.since_secs == int_arg(*args, "since"@)
        },
{
    let profile = active_profile(state)?;
    let group = args.required("group")?;
    let query = args.required("query")?;
    let since_secs = args.integer("since");
    Ok(SearchRequest { profile, group, query, since_secs })
}

/// `ecs_describe_task` needs a profile, `cluster` and `task_arn`.
pub struct DescribeTaskRequest {
    pub profile: SsoProfile,
    pub cluster: String,
    pub task_arn: String,
}

/// `ecs_describe_task` needs a profile, `cluster` and `task_arn`.
pub fn describe_task_request(state: &AuthState, args: &ToolArgs) -> (r: Result<DescribeTaskRequest, ToolError>)
    ensures
        err_view(r) == first_error(state@, need(*args, "cluster"@), need(*args, "task_arn"@), nothing()),
        r matches Ok(q) ==> {
            &&& spec_active(state@) == Ok::<ProfileView, ErrorView>(q.profile@)
            &&& need(*args, "cluster"@) == Ok::<Seq<char>, ErrorView>(q.cluster@)
            &&& need(*args, "task_arn"@) == Ok::<Seq<char>, ErrorView>(q.task_arn@)
        },
{
    let profile = active_profile(state)?;
    let cluster = args.required("cluster")?;
    let task_arn = args.required("task_arn")?;
    Ok(DescribeTaskRequest { profile, cluster, task_arn })
}

/// The account tools (`switch_account`, `sso_logout`, `sso_login`) need the
/// argument `profile` and no chosen profile.
pub fn profile_name_arg(args: &ToolArgs) -> (r: Result<String, ToolError>)
    ensures
        match (r, need(*args, "profile"@)) {
            (Ok(s), Ok(t)) => s@ == t,
            (Err(e), Err(f)) => e@ == f,
            _ => false,
        },
{
    args.required("profile")
}

/// The log group that a Lambda function writes to.
pub fn lambda_log_group(name: &String) -> (g: String)
    ensures
        g@ == "/aws/lambda/"@ + name@,
{
    concat_str("/aws/lambda/", name.as_str())
}

/// How far back `logs_tail` and `lambda_get_logs` look by default: 15 minutes.
pub const TAIL_WINDOW_MS: i64 = 15 * 60 * 1000;

/// How far back `logs_search` looks by default: an hour.
pub const SEARCH_WINDOW_MS: i64 = 60 * 60 * 1000;

/// The start of a log query at time `now_ms`: `since_secs` seconds ago when
/// given, else `default_window_ms` ago.
pub open spec fn start_ms(now_ms: int, since_secs: Option<i64>, default_window_ms: int) -> int {
    match since_secs {
        Some(s) => now_ms - s * 1000,
        None => now_ms - default_window_ms,
    }
}

/// The start time of a log query, in milliseconds since the epoch. The
/// arithmetic wraps around on `i64` overflow, as unchecked `i64` arithmetic
/// does in a release build; without overflow it is `start_ms` exactly.
pub fn log_start_ms(now_ms: i64, since_secs: Option<i64>, default_window_ms: i64) -> (t: i64)
    ensures
        t == match since_secs {
            Some(s) => i64_specs::wrapping_sub(now_ms, i64_specs::wrapping_mul(s, 1000)),
            None => i64_specs::wrapping_sub(now_ms, default_window_ms),
        },
        i64::MIN <= start_ms(now_ms as int, since_secs, default_window_ms as int) <= i64::MAX
            && (since_secs matches Some(s) ==> i64::MIN <= s * 1000 <= i64::MAX) ==> t == start_ms(
            now_ms as int,
            since_secs,
            default_window_ms as int,
        ),
{
    match since_secs {
        Some(s) => now_ms.wrapping_sub(s.wrapping_mul(1000)),
        None => now_ms.wrapping_sub(default_window_ms),
    }
}

/// The last `n` elements of `v` (all of them when there are no more than
/// `n`; none for a negative `n`).
pub open spec fn last_n<T>(v: Seq<T>, n: i64) -> Seq<T> {
    let k = if n < 0 { 0usize } else { n as usize };
    if v.len() > k {
        v.skip(v.len() - k)
    } else {
        v
    }
}

/// Keeping the last `n` events keeps the `n` most recent ones, or all of
/// them where there are no more, in their order; a negative `n` keeps none.
pub proof fn lemma_last_n_is_newest_suffix<T>(v: Seq<T>, n: i64)
    ensures
        n < 0 ==> last_n(v, n).len() == 0,
        0 <= n <= usize::MAX ==> last_n(v, n).len() == if v.len() <= n { v.len() as int } else { n as int },
        forall|i: int|
            0 <= i < last_n(v, n).len() ==> #[trigger] last_n(v, n)[i] == v[v.len() - last_n(v, n).len() + i],
{
}

/// Keeps the `n` most recent of `events`, which come oldest first.
pub fn keep_last<T>(events: Vec<T>, n: i64) -> (r: Vec<T>)
    ensures
        r@ == last_n(events@, n),
{
    let k: usize = if n < 0 {
        0
    } else {
        n as usize
    };
    let mut events = events;
    if events.len() > k {
        let at = events.len() - k;
        events.split_off(at)
    } else {
        events
    }
}

} // verus!
