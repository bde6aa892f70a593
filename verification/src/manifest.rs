//! The tools that the server offers, with the arguments each one takes.
use vstd::prelude::*;

verus! {

/// The JSON type of a tool argument.
pub enum ParamKind {
    Text,
    Integer,
    Object,
}

impl ParamKind {
    /// The type's name in a JSON schema.
    pub fn schema_type(&self) -> (s: &'static str)
        ensures
            s@ == match self {
                ParamKind::Text => "string"@,
                ParamKind::Integer => "integer"@,
                ParamKind::Object => "object"@,
            },
    {
        match self {
            ParamKind::Text => "string",
            ParamKind::Integer => "integer",
            ParamKind::Object => "object",
        }
    }
}

/// One argument of a tool.
pub struct ParamSpec {
    pub name: String,
    pub kind: ParamKind,
    pub description: String,
}

/// One tool: its name, what it does, its arguments and which of them it needs.
pub struct ToolSpec {
    pub name: String,
    pub description: String,
    pub params: Vec<ParamSpec>,
    pub required: Vec<String>,
}

/// The mathematical value of a [`ParamSpec`].
#[verifier::ext_equal]
pub struct ParamView {
    pub name: Seq<char>,
    pub kind: ParamKind,
    pub description: Seq<char>,
}

/// The mathematical value of a [`ToolSpec`].
#[verifier::ext_equal]
pub struct ToolView {
    pub name: Seq<char>,
    pub description: Seq<char>,
    pub params: Seq<ParamView>,
    pub required: Seq<Seq<char>>,
}

impl View for ParamSpec {
    type V = ParamView;

    open spec fn view(&self) -> ParamView {
        ParamView { name: self.name@, kind: self.kind, description: self.description@ }
    }
}

impl View for ToolSpec {
    type V = ToolView;

    open spec fn view(&self) -> ToolView {
        ToolView {
            name: self.name@,
            description: self.description@,
            params: self.params@.map_values(|p: ParamSpec| p@),
            required: self.required@.map_values(|s: String| s@),
        }
    }
}

pub open spec fn param_view(name: Seq<char>, kind: ParamKind, description: Seq<char>) -> ParamView {
    ParamView { name, kind, description }
}

pub open spec fn tools_view(ts: Seq<ToolSpec>) -> Seq<ToolView> {
    ts.map_values(|t: ToolSpec| t@)
}

/// The tool at position `i` of the manifest.
pub open spec fn manifest_entry(i: int) -> ToolView {
    if i == 0 {
        ToolView {
            name: "list_accounts"@,
            description: "List all AWS SSO accounts and roles available for the configured SSO session."@,
            params: seq![],
            required: seq![],
        }
    } else if i == 1 {
        ToolView {
            name: "switch_account"@,
            description: "Switch the active AWS account/profile used for subsequent tool calls."@,
            params: seq![
                param_view("profile"@, ParamKind::Text, "Profile name from list_accounts (e.g. 'my-account')"@)
            ],
            required: seq!["profile"@],
        }
    } else if i == 2 {
        ToolView {
            name: "sso_login"@,
            description: "Initiate AWS SSO login flow. Returns a URL and device code to open in the browser."@,
            params: seq![
                param_view("profile"@, ParamKind::Text, "Profile name to authenticate"@)
            ],
            required: seq!["profile"@],
        }
    } else if i == 3 {
        ToolView {
            name: "s3_list_buckets"@,
            description: "List all S3 buckets in the active AWS account."@,
            params: seq![],
            required: seq![],
        }
    } else if i == 4 {
        ToolView {
            name: "s3_list_objects"@,
            description: "List objects in an S3 bucket, optionally filtered by prefix."@,
            params: seq![
                param_view("bucket"@, ParamKind::Text, "Bucket name"@),
                param_view("prefix"@, ParamKind::Text, "Key prefix filter (optional)"@),
                param_view("max_keys"@, ParamKind::Integer, "Max results (default 1000)"@)
            ],
            required: seq!["bucket"@],
        }
    } else if i == 5 {
        ToolView {
            name: "s3_get_object"@,
            description: "Download an S3 object. Returns content as UTF-8 string or base64 for binary files."@,
            params: seq![
                param_view("bucket"@, ParamKind::Text, "Bucket name"@),
                param_view("key"@, ParamKind::Text, "Object key"@)
            ],
            required: seq!["bucket"@, "key"@],
        }
    } else if i == 6 {
        ToolView {
            name: "s3_put_object"@,
            description: "Upload a text object to S3."@,
            params: seq![
                param_view("bucket"@, ParamKind::Text, "Bucket name"@),
                param_view("key"@, ParamKind::Text, "Object key"@),
                param_view("body"@, ParamKind::Text, "Object content (UTF-8 text)"@)
            ],
            required: seq!["bucket"@, "key"@, "body"@],
        }
    } else if i == 7 {
        ToolView {
            name: "s3_delete_object"@,
            description: "Delete an object from S3."@,
            params: seq![
                param_view("bucket"@, ParamKind::Text, "Bucket name"@),
                param_view("key"@, ParamKind::Text, "Object key"@)
            ],
            required: seq!["bucket"@, "key"@],
        }
    } else if i == 8 {
        ToolView {
            name: "s3_presign"@,
            description: "Generate a pre-signed URL for downloading an S3 object."@,
            params: seq![
                param_view("bucket"@, ParamKind::Text, "Bucket name"@),
                param_view("key"@, ParamKind::Text, "Object key"@),
                param_view("expires_secs"@, ParamKind::Integer, "URL expiry in seconds (default 3600)"@)
            ],
            required: seq!["bucket"@, "key"@],
        }
    } else if i == 9 {
        ToolView {
            name: "lambda_list"@,
            description: "List all Lambda functions in the active AWS account."@,
            params: seq![],
            required: seq![],
        }
    } else if i == 10 {
        ToolView {
            name: "lambda_invoke"@,
            description: "Invoke a Lambda function synchronously and return the response."@,
            params: seq![
                param_view("name"@, ParamKind::Text, "Function name or ARN"@),
                param_view("payload"@, ParamKind::Object, "JSON payload to send to the function (optional)"@)
            ],
            required: seq!["name"@],
        }
    } else if i == 11 {
        ToolView {
            name: "lambda_get_logs"@,
            description: "Get recent CloudWatch logs for a Lambda function."@,
            params: seq![
                param_view("name"@, ParamKind::Text, "Function name"@),
                param_view("tail"@, ParamKind::Integer, "Number of most recent log events to return (optional)"@)
            ],
            required: seq!["name"@],
        }
    } else if i == 12 {
        ToolView {
            name: "logs_list_groups"@,
            description: "List CloudWatch log groups, optionally filtered by prefix."@,
            params: seq![
                param_view("prefix"@, ParamKind::Text, "Log group name prefix filter (optional)"@)
            ],
            required: seq![],
        }
    } else if i == 13 {
        ToolView {
            name: "logs_list_streams"@,
            description: "List log streams in a CloudWatch log group, ordered by last event time."@,
            params: seq![
                param_view("group"@, ParamKind::Text, "Log group name"@),
                param_view("limit"@, ParamKind::Integer, "Max streams to return (optional)"@)
            ],
            required: seq!["group"@],
        }
    } else if i == 14 {
        ToolView {
            name: "logs_tail"@,
            description: "Tail recent log events from a CloudWatch log group or stream."@,
            params: seq![
                param_view("group"@, ParamKind::Text, "Log group name"@),
                param_view("stream"@, ParamKind::Text, "Log stream name (optional, tails all streams if omitted)"@),
                param_view("since"@, ParamKind::Integer, "How many seconds ago to start (default 900 = 15 min)"@)
            ],
            required: seq!["group"@],
        }
    } else if i == 15 {
        ToolView {
            name: "logs_search"@,
            description: "Search CloudWatch log group using a filter pattern."@,
            params: seq![
                param_view("group"@, ParamKind::Text, "Log group name"@),
                param_view("query"@, ParamKind::Text, "CloudWatch filter pattern (e.g. 'ERROR', '[level=ERROR]')"@),
                param_view("since"@, ParamKind::Integer, "How many seconds ago to search (default 3600 = 1 hr)"@)
            ],
            required: seq!["group"@, "query"@],
        }
    } else if i == 16 {
        ToolView {
            name: "ecs_list_clusters"@,
            description: "List all ECS cluster ARNs in the active AWS account."@,
            params: seq![],
            required: seq![],
        }
    } else if i == 17 {
        ToolView {
            name: "ecs_list_services"@,
            description: "List all ECS service ARNs in a cluster."@,
            params: seq![
                param_view("cluster"@, ParamKind::Text, "Cluster name or ARN"@)
            ],
            required: seq!["cluster"@],
        }
    } else if i == 18 {
        ToolView {
            name: "ecs_list_tasks"@,
            description: "List running ECS task ARNs in a cluster, optionally filtered by service."@,
            params: seq![
                param_view("cluster"@, ParamKind::Text, "Cluster name or ARN"@),
                param_view("service"@, ParamKind::Text, "Service name filter (optional)"@)
            ],
            required: seq!["cluster"@],
        }
    } else if i == 19 {
        ToolView {
            name: "ecs_describe_task"@,
            description: "Describe an ECS task: status, containers (name/image/status), log configuration from task definition."@,
            params: seq![
                param_view("cluster"@, ParamKind::Text, "Cluster name or ARN"@),
                param_view("task_arn"@, ParamKind::Text, "Task ARN"@)
            ],
            required: seq!["cluster"@, "task_arn"@],
        }
    } else if i == 20 {
        ToolView {
            name: "ecr_list_repos"@,
            description: "List all ECR repositories in the active AWS account."@,
            params: seq![],
            required: seq![],
        }
    } else {
        ToolView {
            name: "ecr_list_images"@,
            description: "List images in an ECR repository."@,
            params: seq![
                param_view("repo"@, ParamKind::Text, "Repository name"@),
                param_view("max"@, ParamKind::Integer, "Max images to return (optional)"@)
            ],
            required: seq!["repo"@],
        }
    }
}

/// The number of tools offered.
pub open spec fn manifest_len() -> nat {
    22
}

/// The tools offered, in the order they are listed to clients.
pub open spec fn manifest() -> Seq<ToolView> {
    Seq::new(manifest_len(), |i: int| manifest_entry(i))
}

/// Whether tool `t` declares an argument named `name`.
pub open spec fn declares(t: ToolView, name: Seq<char>) -> bool {
    exists|k: int| 0 <= k < t.params.len() && #[trigger] t.params[k].name == name
}

/// Every argument that a tool requires is one that it declares.
pub proof fn lemma_required_are_declared()
    ensures
        forall|i: int, j: int|
            0 <= i < manifest().len() && 0 <= j < manifest()[i].required.len() ==> declares(
                manifest()[i],
                #[trigger] manifest()[i].required[j],
            ),
{
    assert forall|i: int, j: int|
        0 <= i < manifest().len() && 0 <= j < manifest()[i].required.len() implies declares(
        manifest()[i],
        #[trigger] manifest()[i].required[j],
    ) by {
        if i == 1 {
            assert(manifest_entry(1).params[0].name == manifest_entry(1).required[0]);
        }
        if i == 2 {
            assert(manifest_entry(2).params[0].name == manifest_entry(2).required[0]);
        }
        if i == 4 {
            assert(manifest_entry(4).params[0].name == manifest_entry(4).required[0]);
        }
        if i == 5 {
            assert(manifest_entry(5).params[0].name == manifest_entry(5).required[0]);
            assert(manifest_entry(5).params[1].name == manifest_entry(5).required[1]);
        }
        if i == 6 {
            assert(manifest_entry(6).params[0].name == manifest_entry(6).required[0]);
            assert(manifest_entry(6).params[1].name == manifest_entry(6).required[1]);
            assert(manifest_entry(6).params[2].name == manifest_entry(6).required[2]);
        }
        if i == 7 {
            assert(manifest_entry(7).params[0].name == manifest_entry(7).required[0]);
            assert(manifest_entry(7).params[1].name == manifest_entry(7).required[1]);
        }
        if i == 8 {
            assert(manifest_entry(8).params[0].name == manifest_entry(8).required[0]);
            assert(manifest_entry(8).params[1].name == manifest_entry(8).required[1]);
        }
        if i == 10 {
            assert(manifest_entry(10).params[0].name == manifest_entry(10).required[0]);
        }
        if i == 11 {
            assert(manifest_entry(11).params[0].name == manifest_entry(11).required[0]);
        }
        if i == 13 {
            assert(manifest_entry(13).params[0].name == manifest_entry(13).required[0]);
        }
        if i == 14 {
            assert(manifest_entry(14).params[0].name == manifest_entry(14).required[0]);
        }
        if i == 15 {
            assert(manifest_entry(15).params[0].name == manifest_entry(15).required[0]);
            assert(manifest_entry(15).params[1].name == manifest_entry(15).required[1]);
        }
        if i == 17 {
            assert(manifest_entry(17).params[0].name == manifest_entry(17).required[0]);
        }
        if i == 18 {
            assert(manifest_entry(18).params[0].name == manifest_entry(18).required[0]);
        }
        if i == 19 {
            assert(manifest_entry(19).params[0].name == manifest_entry(19).required[0]);
            assert(manifest_entry(19).params[1].name == manifest_entry(19).required[1]);
        }
        if i == 21 {
            assert(manifest_entry(21).params[0].name == manifest_entry(21).required[0]);
        }
    }
}

/// The arguments that the tools read as integers.
pub open spec fn read_as_integer(name: Seq<char>) -> bool {
    name == "max_keys"@ || name == "expires_secs"@ || name == "tail"@ || name == "limit"@
        || name == "since"@ || name == "max"@
}

/// Which argument names the tools read as integers.
proof fn lemma_integer_names()
    ensures
        read_as_integer("max_keys"@),
        read_as_integer("expires_secs"@),
        read_as_integer("tail"@),
        read_as_integer("limit"@),
        read_as_integer("since"@),
        read_as_integer("max"@),
        !read_as_integer("profile"@),
        !read_as_integer("bucket"@),
        !read_as_integer("prefix"@),
        !read_as_integer("key"@),
        !read_as_integer("body"@),
        !read_as_integer("name"@),
        !read_as_integer("payload"@),
        !read_as_integer("group"@),
        !read_as_integer("stream"@),
        !read_as_integer("query"@),
        !read_as_integer("cluster"@),
        !read_as_integer("service"@),
        !read_as_integer("task_arn"@),
        !read_as_integer("repo"@),
{
    reveal_strlit("max_keys");
    reveal_strlit("expires_secs");
    reveal_strlit("tail");
    reveal_strlit("limit");
    reveal_strlit("since");
    reveal_strlit("max");
    reveal_strlit("profile");
    reveal_strlit("bucket");
    reveal_strlit("prefix");
    reveal_strlit("key");
    reveal_strlit("body");
    reveal_strlit("name");
    reveal_strlit("payload");
    reveal_strlit("group");
    reveal_strlit("stream");
    reveal_strlit("query");
    reveal_strlit("cluster");
    reveal_strlit("service");
    reveal_strlit("task_arn");
    reveal_strlit("repo");
    assert("profile"@.len() != "max_keys"@.len());
    assert("profile"@.len() != "expires_secs"@.len());
    assert("profile"@.len() != "tail"@.len());
    assert("profile"@.len() != "limit"@.len());
    assert("profile"@.len() != "since"@.len());
    assert("profile"@.len() != "max"@.len());
    assert("bucket"@.len() != "max_keys"@.len());
    assert("bucket"@.len() != "expires_secs"@.len());
    assert("bucket"@.len() != "tail"@.len());
    assert("bucket"@.len() != "limit"@.len());
    assert("bucket"@.len() != "since"@.len());
    assert("bucket"@.len() != "max"@.len());
    assert("prefix"@.len() != "max_keys"@.len());
    assert("prefix"@.len() != "expires_secs"@.len());
    assert("prefix"@.len() != "tail"@.len());
    assert("prefix"@.len() != "limit"@.len());
    assert("prefix"@.len() != "since"@.len());
    assert("prefix"@.len() != "max"@.len());
    assert("key"@.len() != "max_keys"@.len());
    assert("key"@.len() != "expires_secs"@.len());
    assert("key"@.len() != "tail"@.len());
    assert("key"@.len() != "limit"@.len());
    assert("key"@.len() != "since"@.len());
    assert("key"@[0] != "max"@[0]);
    assert("body"@.len() != "max_keys"@.len());
    assert("body"@.len() != "expires_secs"@.len());
    assert("body"@[0] != "tail"@[0]);
    assert("body"@.len() != "limit"@.len());
    assert("body"@.len() != "since"@.len());
    assert("body"@.len() != "max"@.len());
    assert("name"@.len() != "max_keys"@.len());
    assert("name"@.len() != "expires_secs"@.len());
    assert("name"@[0] != "tail"@[0]);
    assert("name"@.len() != "limit"@.len());
    assert("name"@.len() != "since"@.len());
    assert("name"@.len() != "max"@.len());
    assert("payload"@.len() != "max_keys"@.len());
    assert("payload"@.len() != "expires_secs"@.len());
    assert("payload"@.len() != "tail"@.len());
    assert("payload"@.len() != "limit"@.len());
    assert("payload"@.len() != "since"@.len());
    assert("payload"@.len() != "max"@.len());
    assert("group"@.len() != "max_keys"@.len());
    assert("group"@.len() != "expires_secs"@.len());
    assert("group"@.len() != "tail"@.len());
    assert("group"@[0] != "limit"@[0]);
    assert("group"@[0] != "since"@[0]);
    assert("group"@.len() != "max"@.len());
    assert("stream"@.len() != "max_keys"@.len());
    assert("stream"@.len() != "expires_secs"@.len());
    assert("stream"@.len() != "tail"@.len());
    assert("stream"@.len() != "limit"@.len());
    assert("stream"@.len() != "since"@.len());
    assert("stream"@.len() != "max"@.len());
    assert("query"@.len() != "max_keys"@.len());
    assert("query"@.len() != "expires_secs"@.len());
    assert("query"@.len() != "tail"@.len());
    assert("query"@[0] != "limit"@[0]);
    assert("query"@[0] != "since"@[0]);
    assert("query"@.len() != "max"@.len());
    assert("cluster"@.len() != "max_keys"@.len());
    assert("cluster"@.len() != "expires_secs"@.len());
    assert("cluster"@.len() != "tail"@.len());
    assert("cluster"@.len() != "limit"@.len());
    assert("cluster"@.len() != "since"@.len());
    assert("cluster"@.len() != "max"@.len());
    assert("service"@.len() != "max_keys"@.len());
    assert("service"@.len() != "expires_secs"@.len());
    assert("service"@.len() != "tail"@.len());
    assert("service"@.len() != "limit"@.len());
    assert("service"@.len() != "since"@.len());
    assert("service"@.len() != "max"@.len());
    assert("task_arn"@[0] != "max_keys"@[0]);
    assert("task_arn"@.len() != "expires_secs"@.len());
    assert("task_arn"@.len() != "tail"@.len());
    assert("task_arn"@.len() != "limit"@.len());
    assert("task_arn"@.len() != "since"@.len());
    assert("task_arn"@.len() != "max"@.len());
    assert("repo"@.len() != "max_keys"@.len());
    assert("repo"@.len() != "expires_secs"@.len());
    assert("repo"@[0] != "tail"@[0]);
    assert("repo"@.len() != "limit"@.len());
    assert("repo"@.len() != "since"@.len());
    assert("repo"@.len() != "max"@.len());
}

/// An argument is declared as an integer exactly when the tools read it as
/// one, and each tool that reads an integer argument declares it: `max_keys`
/// of `s3_list_objects`, `expires_secs` of `s3_presign`, `tail` of
/// `lambda_get_logs`, `limit` of `logs_list_streams`, `since` of `logs_tail`
/// and `logs_search`, and `max` of `ecr_list_images`.
pub proof fn lemma_integer_arguments_declared()
    ensures
        forall|i: int, k: int|
            0 <= i < manifest().len() && 0 <= k < manifest()[i].params.len() ==> (read_as_integer(
                #[trigger] manifest()[i].params[k].name,
            ) <==> manifest()[i].params[k].kind == ParamKind::Integer),
        manifest()[4].name == "s3_list_objects"@ && declares(manifest()[4], "max_keys"@),
        manifest()[8].name == "s3_presign"@ && declares(manifest()[8], "expires_secs"@),
        manifest()[11].name == "lambda_get_logs"@ && declares(manifest()[11], "tail"@),
        manifest()[13].name == "logs_list_streams"@ && declares(manifest()[13], "limit"@),
        manifest()[14].name == "logs_tail"@ && declares(manifest()[14], "since"@),
        manifest()[15].name == "logs_search"@ && declares(manifest()[15], "since"@),
        manifest()[21].name == "ecr_list_images"@ && declares(manifest()[21], "max"@),
{
    lemma_integer_names();
    assert(manifest_entry(4).params[2].name == "max_keys"@);
    assert(manifest_entry(8).params[2].name == "expires_secs"@);
    assert(manifest_entry(11).params[1].name == "tail"@);
    assert(manifest_entry(13).params[1].name == "limit"@);
    assert(manifest_entry(14).params[2].name == "since"@);
    assert(manifest_entry(15).params[2].name == "since"@);
    assert(manifest_entry(21).params[1].name == "max"@);
    assert forall|i: int, k: int|
        0 <= i < manifest().len() && 0 <= k < manifest()[i].params.len() implies (read_as_integer(
        #[trigger] manifest()[i].params[k].name,
    ) <==> manifest()[i].params[k].kind == ParamKind::Integer) by {
        if i == 1 {
            assert(manifest()[i] == manifest_entry(1));
            if k == 0 {
                assert(manifest_entry(1).params[0].name == "profile"@);
                assert(manifest_entry(1).params[0].kind == ParamKind::Text);
            }
        }
        if i == 2 {
            assert(manifest()[i] == manifest_entry(2));
            if k == 0 {
                assert(manifest_entry(2).params[0].name == "profile"@);
                assert(manifest_entry(2).params[0].kind == ParamKind::Text);
            }
        }
        if i == 4 {
            assert(manifest()[i] == manifest_entry(4));
            if k == 0 {
                assert(manifest_entry(4).params[0].name == "bucket"@);
                assert(manifest_entry(4).params[0].kind == ParamKind::Text);
            }
            if k == 1 {
                assert(manifest_entry(4).params[1].name == "prefix"@);
                assert(manifest_entry(4).params[1].kind == ParamKind::Text);
            }
            if k == 2 {
                assert(manifest_entry(4).params[2].name == "max_keys"@);
                assert(manifest_entry(4).params[2].kind == ParamKind::Integer);
            }
        }
        if i == 5 {
            assert(manifest()[i] == manifest_entry(5));
            if k == 0 {
                assert(manifest_entry(5).params[0].name == "bucket"@);
                assert(manifest_entry(5).params[0].kind == ParamKind::Text);
            }
            if k == 1 {
                assert(manifest_entry(5).params[1].name == "key"@);
                assert(manifest_entry(5).params[1].kind == ParamKind::Text);
            }
        }
        if i == 6 {
            assert(manifest()[i] == manifest_entry(6));
            if k == 0 {
                assert(manifest_entry(6).params[0].name == "bucket"@);
                assert(manifest_entry(6).params[0].kind == ParamKind::Text);
            }
            if k == 1 {
                assert(manifest_entry(6).params[1].name == "key"@);
                assert(manifest_entry(6).params[1].kind == ParamKind::Text);
            }
            if k == 2 {
                assert(manifest_entry(6).params[2].name == "body"@);
                assert(manifest_entry(6).params[2].kind == ParamKind::Text);
            }
        }
        if i == 7 {
            assert(manifest()[i] == manifest_entry(7));
            if k == 0 {
                assert(manifest_entry(7).params[0].name == "bucket"@);
                assert(manifest_entry(7).params[0].kind == ParamKind::Text);
            }
            if k == 1 {
                assert(manifest_entry(7).params[1].name == "key"@);
                assert(manifest_entry(7).params[1].kind == ParamKind::Text);
            }
        }
        if i == 8 {
            assert(manifest()[i] == manifest_entry(8));
            if k == 0 {
                assert(manifest_entry(8).params[0].name == "bucket"@);
                assert(manifest_entry(8).params[0].kind == ParamKind::Text);
            }
            if k == 1 {
                assert(manifest_entry(8).params[1].name == "key"@);
                assert(manifest_entry(8).params[1].kind == ParamKind::Text);
            }
            if k == 2 {
                assert(manifest_entry(8).params[2].name == "expires_secs"@);
                assert(manifest_entry(8).params[2].kind == ParamKind::Integer);
            }
        }
        if i == 10 {
            assert(manifest()[i] == manifest_entry(10));
            if k == 0 {
                assert(manifest_entry(10).params[0].name == "name"@);
                assert(manifest_entry(10).params[0].kind == ParamKind::Text);
            }
            if k == 1 {
                assert(manifest_entry(10).params[1].name == "payload"@);
                assert(manifest_entry(10).params[1].kind == ParamKind::Object);
            }
        }
        if i == 11 {
            assert(manifest()[i] == manifest_entry(11));
            if k == 0 {
                assert(manifest_entry(11).params[0].name == "name"@);
                assert(manifest_entry(11).params[0].kind == ParamKind::Text);
            }
            if k == 1 {
                assert(manifest_entry(11).params[1].name == "tail"@);
                assert(manifest_entry(11).params[1].kind == ParamKind::Integer);
            }
        }
        if i == 12 {
            assert(manifest()[i] == manifest_entry(12));
            if k == 0 {
                assert(manifest_entry(12).params[0].name == "prefix"@);
                assert(manifest_entry(12).params[0].kind == ParamKind::Text);
            }
        }
        if i == 13 {
            assert(manifest()[i] == manifest_entry(13));
            if k == 0 {
                assert(manifest_entry(13).params[0].name == "group"@);
                assert(manifest_entry(13).params[0].kind == ParamKind::Text);
            }
            if k == 1 {
                assert(manifest_entry(13).params[1].name == "limit"@);
                assert(manifest_entry(13).params[1].kind == ParamKind::Integer);
            }
        }
        if i == 14 {
            assert(manifest()[i] == manifest_entry(14));
            if k == 0 {
                assert(manifest_entry(14).params[0].name == "group"@);
                assert(manifest_entry(14).params[0].kind == ParamKind::Text);
            }
            if k == 1 {
                assert(manifest_entry(14).params[1].name == "stream"@);
                assert(manifest_entry(14).params[1].kind == ParamKind::Text);
            }
            if k == 2 {
                assert(manifest_entry(14).params[2].name == "since"@);
                assert(manifest_entry(14).params[2].kind == ParamKind::Integer);
            }
        }
        if i == 15 {
            assert(manifest()[i] == manifest_entry(15));
            if k == 0 {
                assert(manifest_entry(15).params[0].name == "group"@);
                assert(manifest_entry(15).params[0].kind == ParamKind::Text);
            }
            if k == 1 {
                assert(manifest_entry(15).params[1].name == "query"@);
                assert(manifest_entry(15).params[1].kind == ParamKind::Text);
            }
            if k == 2 {
                assert(manifest_entry(15).params[2].name == "since"@);
                assert(manifest_entry(15).params[2].kind == ParamKind::Integer);
            }
        }
        if i == 17 {
            assert(manifest()[i] == manifest_entry(17));
            if k == 0 {
                assert(manifest_entry(17).params[0].name == "cluster"@);
                assert(manifest_entry(17).params[0].kind == ParamKind::Text);
            }
        }
        if i == 18 {
            assert(manifest()[i] == manifest_entry(18));
            if k == 0 {
                assert(manifest_entry(18).params[0].name == "cluster"@);
                assert(manifest_entry(18).params[0].kind == ParamKind::Text);
            }
            if k == 1 {
                assert(manifest_entry(18).params[1].name == "service"@);
                assert(manifest_entry(18).params[1].kind == ParamKind::Text);
            }
        }
        if i == 19 {
            assert(manifest()[i] == manifest_entry(19));
            if k == 0 {
                assert(manifest_entry(19).params[0].name == "cluster"@);
                assert(manifest_entry(19).params[0].kind == ParamKind::Text);
            }
            if k == 1 {
                assert(manifest_entry(19).params[1].name == "task_arn"@);
                assert(manifest_entry(19).params[1].kind == ParamKind::Text);
            }
        }
        if i == 21 {
            assert(manifest()[i] == manifest_entry(21));
            if k == 0 {
                assert(manifest_entry(21).params[0].name == "repo"@);
                assert(manifest_entry(21).params[0].kind == ParamKind::Text);
            }
            if k == 1 {
                assert(manifest_entry(21).params[1].name == "max"@);
                assert(manifest_entry(21).params[1].kind == ParamKind::Integer);
            }
        }
    }
}

/// Three marks of a tool name that tell the names apart: its length and two
/// of its last nine characters.
pub open spec fn name_key(s: Seq<char>) -> (int, char, char) {
    (s.len() as int, s[s.len() - 9], s[s.len() - 5])
}

/// The marks of the name of the tool at position `i`.
pub open spec fn key_table(i: int) -> (int, char, char) {
    if i == 0 {
        (13, '_', 'o')
    } else if i == 1 {
        (14, 'h', 'c')
    } else if i == 2 {
        (9, 's', 'l')
    } else if i == 3 {
        (15, 't', 'c')
    } else if i == 4 {
        (15, 't', 'j')
    } else if i == 5 {
        (13, 'e', 'b')
    } else if i == 6 {
        (13, 'u', 'b')
    } else if i == 7 {
        (16, 't', 'b')
    } else if i == 8 {
        (10, '3', 'e')
    } else if i == 9 {
        (11, 'm', '_')
    } else if i == 10 {
        (13, 'd', 'n')
    } else if i == 11 {
        (15, '_', '_')
    } else if i == 12 {
        (16, 's', 'r')
    } else if i == 13 {
        (17, 't', 'r')
    } else if i == 14 {
        (9, 'l', '_')
    } else if i == 15 {
        (11, 'g', 'e')
    } else if i == 16 {
        (17, '_', 's')
    } else if i == 17 {
        (17, '_', 'v')
    } else if i == 18 {
        (14, 'i', 't')
    } else if i == 19 {
        (17, 'r', '_')
    } else if i == 20 {
        (14, 'i', 'r')
    } else {
        (15, 's', 'm')
    }
}

/// No two tools share a name.
pub proof fn lemma_tool_names_distinct()
    ensures
        forall|i: int, j: int|
            0 <= i < j < manifest().len() ==> #[trigger] manifest()[i].name != #[trigger] manifest()[j].name,
{
    reveal_strlit("list_accounts");
    reveal_strlit("switch_account");
    reveal_strlit("sso_login");
    reveal_strlit("s3_list_buckets");
    reveal_strlit("s3_list_objects");
    reveal_strlit("s3_get_object");
    reveal_strlit("s3_put_object");
    reveal_strlit("s3_delete_object");
    reveal_strlit("s3_presign");
    reveal_strlit("lambda_list");
    reveal_strlit("lambda_invoke");
    reveal_strlit("lambda_get_logs");
    reveal_strlit("logs_list_groups");
    reveal_strlit("logs_list_streams");
    reveal_strlit("logs_tail");
    reveal_strlit("logs_search");
    reveal_strlit("ecs_list_clusters");
    reveal_strlit("ecs_list_services");
    reveal_strlit("ecs_list_tasks");
    reveal_strlit("ecs_describe_task");
    reveal_strlit("ecr_list_repos");
    reveal_strlit("ecr_list_images");
    assert forall|i: int| 0 <= i < manifest().len() implies name_key(#[trigger] manifest()[i].name)
        == key_table(i) by {
    }
    assert forall|i: int, j: int| 0 <= i < j < manifest().len() implies #[trigger] key_table(i)
        != #[trigger] key_table(j) by {
    }
    assert forall|i: int, j: int|
        0 <= i < j < manifest().len() implies #[trigger] manifest()[i].name != #[trigger] manifest()[j].name by {
        if manifest()[i].name == manifest()[j].name {
            assert(name_key(manifest()[i].name) == name_key(manifest()[j].name));
        }
    }
}

fn param(name: &str, kind: ParamKind, description: &str) -> (p: ParamSpec)
    ensures
        p@ == param_view(name@, kind, description@),
{
    ParamSpec { name: String::from_str(name), kind, description: String::from_str(description) }
}

fn tool(name: &str, description: &str, params: Vec<ParamSpec>, required: Vec<String>) -> (t: ToolSpec)
    ensures
        t@ == (ToolView {
            name: name@,
            description: description@,
            params: params@.map_values(|p: ParamSpec| p@),
            required: required@.map_values(|s: String| s@),
        }),
{
    ToolSpec {
        name: String::from_str(name),
        description: String::from_str(description),
        params,
        required,
    }
}

/// The manifest of all tools.
pub fn all_tools() -> (tools: Vec<ToolSpec>)
    ensures
        tools_view(tools@) =~= manifest(),
{
    let mut tools: Vec<ToolSpec> = Vec::new();
    tools.push(
        tool(
            "list_accounts",
            "List all AWS SSO accounts and roles available for the configured SSO session.",
            Vec::new(),
            Vec::new(),
        ),
    );
    assert(tools@[0]@ =~~= manifest_entry(0));
    tools.push(
        tool(
            "switch_account",
            "Switch the active AWS account/profile used for subsequent tool calls.",
            vec![
                param("profile", ParamKind::Text, "Profile name from list_accounts (e.g. 'my-account')")
            ],
            vec![String::from_str("profile")],
        ),
    );
    assert(tools@[1]@ =~~= manifest_entry(1));
    tools.push(
        tool(
            "sso_login",
            "Initiate AWS SSO login flow. Returns a URL and device code to open in the browser.",
            vec![
                param("profile", ParamKind::Text, "Profile name to authenticate")
            ],
            vec![String::from_str("profile")],
        ),
    );
    assert(tools@[2]@ =~~= manifest_entry(2));
    tools.push(
        tool(
            "s3_list_buckets",
            "List all S3 buckets in the active AWS account.",
            Vec::new(),
            Vec::new(),
        ),
    );
    assert(tools@[3]@ =~~= manifest_entry(3));
    tools.push(
        tool(
            "s3_list_objects",
            "List objects in an S3 bucket, optionally filtered by prefix.",
            vec![
                param("bucket", ParamKind::Text, "Bucket name"),
                param("prefix", ParamKind::Text, "Key prefix filter (optional)"),
                param("max_keys", ParamKind::Integer, "Max results (default 1000)")
            ],
            vec![String::from_str("bucket")],
        ),
    );
    assert(tools@[4]@ =~~= manifest_entry(4));
    tools.push(
        tool(
            "s3_get_object",
            "Download an S3 object. Returns content as UTF-8 string or base64 for binary files.",
            vec![
                param("bucket", ParamKind::Text, "Bucket name"),
                param("key", ParamKind::Text, "Object key")
            ],
            vec![String::from_str("bucket"), String::from_str("key")],
        ),
    );
    assert(tools@[5]@ =~~= manifest_entry(5));
    tools.push(
        tool(
            "s3_put_object",
            "Upload a text object to S3.",
            vec![
                param("bucket", ParamKind::Text, "Bucket name"),
                param("key", ParamKind::Text, "Object key"),
                param("body", ParamKind::Text, "Object content (UTF-8 text)")
            ],
            vec![String::from_str("bucket"), String::from_str("key"), String::from_str("body")],
        ),
    );
    assert(tools@[6]@ =~~= manifest_entry(6));
    tools.push(
        tool(
            "s3_delete_object",
            "Delete an object from S3.",
            vec![
                param("bucket", ParamKind::Text, "Bucket name"),
                param("key", ParamKind::Text, "Object key")
            ],
            vec![String::from_str("bucket"), String::from_str("key")],
        ),
    );
    assert(tools@[7]@ =~~= manifest_entry(7));
    tools.push(
        tool(
            "s3_presign",
            "Generate a pre-signed URL for downloading an S3 object.",
            vec![
                param("bucket", ParamKind::Text, "Bucket name"),
                param("key", ParamKind::Text, "Object key"),
                param("expires_secs", ParamKind::Integer, "URL expiry in seconds (default 3600)")
            ],
            vec![String::from_str("bucket"), String::from_str("key")],
        ),
    );
    assert(tools@[8]@ =~~= manifest_entry(8));
    tools.push(
        tool(
            "lambda_list",
            "List all Lambda functions in the active AWS account.",
            Vec::new(),
            Vec::new(),
        ),
    );
    assert(tools@[9]@ =~~= manifest_entry(9));
    tools.push(
        tool(
            "lambda_invoke",
            "Invoke a Lambda function synchronously and return the response.",
            vec![
                param("name", ParamKind::Text, "Function name or ARN"),
                param("payload", ParamKind::Object, "JSON payload to send to the function (optional)")
            ],
            vec![String::from_str("name")],
        ),
    );
    assert(tools@[10]@ =~~= manifest_entry(10));
    tools.push(
        tool(
            "lambda_get_logs",
            "Get recent CloudWatch logs for a Lambda function.",
            vec![
                param("name", ParamKind::Text, "Function name"),
                param("tail", ParamKind::Integer, "Number of most recent log events to return (optional)")
            ],
            vec![String::from_str("name")],
        ),
    );
    assert(tools@[11]@ =~~= manifest_entry(11));
    tools.push(
        tool(
            "logs_list_groups",
            "List CloudWatch log groups, optionally filtered by prefix.",
            vec![
                param("prefix", ParamKind::Text, "Log group name prefix filter (optional)")
            ],
            Vec::new(),
        ),
    );
    assert(tools@[12]@ =~~= manifest_entry(12));
    tools.push(
        tool(
            "logs_list_streams",
            "List log streams in a CloudWatch log group, ordered by last event time.",
            vec![
                param("group", ParamKind::Text, "Log group name"),
                param("limit", ParamKind::Integer, "Max streams to return (optional)")
            ],
            vec![String::from_str("group")],
        ),
    );
    assert(tools@[13]@ =~~= manifest_entry(13));
    tools.push(
        tool(
            "logs_tail",
            "Tail recent log events from a CloudWatch log group or stream.",
            vec![
                param("group", ParamKind::Text, "Log group name"),
                param("stream", ParamKind::Text, "Log stream name (optional, tails all streams if omitted)"),
                param("since", ParamKind::Integer, "How many seconds ago to start (default 900 = 15 min)")
            ],
            vec![String::from_str("group")],
        ),
    );
    assert(tools@[14]@ =~~= manifest_entry(14));
    tools.push(
        tool(
            "logs_search",
            "Search CloudWatch log group using a filter pattern.",
            vec![
                param("group", ParamKind::Text, "Log group name"),
                param("query", ParamKind::Text, "CloudWatch filter pattern (e.g. 'ERROR', '[level=ERROR]')"),
                param("since", ParamKind::Integer, "How many seconds ago to search (default 3600 = 1 hr)")
            ],
            vec![String::from_str("group"), String::from_str("query")],
        ),
    );
    assert(tools@[15]@ =~~= manifest_entry(15));
    tools.push(
        tool(
            "ecs_list_clusters",
            "List all ECS cluster ARNs in the active AWS account.",
            Vec::new(),
            Vec::new(),
        ),
    );
    assert(tools@[16]@ =~~= manifest_entry(16));
    tools.push(
        tool(
            "ecs_list_services",
            "List all ECS service ARNs in a cluster.",
            vec![
                param("cluster", ParamKind::Text, "Cluster name or ARN")
            ],
            vec![String::from_str("cluster")],
        ),
    );
    assert(tools@[17]@ =~~= manifest_entry(17));
    tools.push(
        tool(
            "ecs_list_tasks",
            "List running ECS task ARNs in a cluster, optionally filtered by service.",
            vec![
                param("cluster", ParamKind::Text, "Cluster name or ARN"),
                param("service", ParamKind::Text, "Service name filter (optional)")
            ],
            vec![String::from_str("cluster")],
        ),
    );
    assert(tools@[18]@ =~~= manifest_entry(18));
    tools.push(
        tool(
            "ecs_describe_task",
            "Describe an ECS task: status, containers (name/image/status), log configuration from task definition.",
            vec![
                param("cluster", ParamKind::Text, "Cluster name or ARN"),
                param("task_arn", ParamKind::Text, "Task ARN")
            ],
            vec![String::from_str("cluster"), String::from_str("task_arn")],
        ),
    );
    assert(tools@[19]@ =~~= manifest_entry(19));
    tools.push(
        tool(
            "ecr_list_repos",
            "List all ECR repositories in the active AWS account.",
            Vec::new(),
            Vec::new(),
        ),
    );
    assert(tools@[20]@ =~~= manifest_entry(20));
    tools.push(
        tool(
            "ecr_list_images",
            "List images in an ECR repository.",
            vec![
                param("repo", ParamKind::Text, "Repository name"),
                param("max", ParamKind::Integer, "Max images to return (optional)")
            ],
            vec![String::from_str("repo")],
        ),
    );
    assert(tools@[21]@ =~~= manifest_entry(21));
    assert(tools_view(tools@) =~= manifest());
    tools
}

} // verus!
