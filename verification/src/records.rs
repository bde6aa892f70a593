//! What the tools report of the records that the AWS services return.
//!
//! Each `...Info` type holds the members of a service record that a tool
//! reads, absent ones as `None`; each summary is what the client is shown,
//! with the tool's defaults filled in.
use vstd::prelude::*;
use crate::error::{ErrorView, ToolError};

verus! {

/// The text of an optional string, empty where it is absent.
pub open spec fn or_empty(o: Option<String>) -> Seq<char> {
    match o {
        Some(s) => s@,
        None => seq![],
    }
}

/// An optional string, or the empty string.
pub fn unwrap_or_empty(o: Option<String>) -> (s: String)
    ensures
        s@ == or_empty(o),
{
    match o {
        Some(s) => s,
        None => String::new(),
    }
}

/// An optional string, or the given default.
pub fn unwrap_or_text(o: Option<String>, default: &str) -> (s: String)
    ensures
        s@ == match o {
            Some(v) => v@,
            None => default@,
        },
{
    match o {
        Some(s) => s,
        None => String::from_str(default),
    }
}

/// A CloudWatch log group.
pub struct LogGroupInfo {
    pub name: Option<String>,
    pub retention_days: Option<i32>,
    pub stored_bytes: Option<i64>,
}

pub struct LogGroupSummary {
    pub name: String,
    pub retention_days: Option<i32>,
    pub stored_bytes: i64,
}

/// A log group as listed: a missing size counts as zero.
pub fn log_group_summary(g: LogGroupInfo) -> (s: LogGroupSummary)
    ensures
        s.name@ == or_empty(g.name),
        s.retention_days == g.retention_days,
        s.stored_bytes == match g.stored_bytes {
            Some(b) => b,
            None => 0,
        },
{
    LogGroupSummary {
        name: unwrap_or_empty(g.name),
        retention_days: g.retention_days,
        stored_bytes: match g.stored_bytes {
            Some(b) => b,
            None => 0,
        },
    }
}

/// A CloudWatch log stream.
pub struct LogStreamInfo {
    pub name: Option<String>,
    pub last_event_ms: Option<i64>,
    pub first_event_ms: Option<i64>,
}

pub struct LogStreamSummary {
    pub name: String,
    pub last_event_ms: Option<i64>,
    pub first_event_ms: Option<i64>,
}

/// A log stream as listed.
pub fn log_stream_summary(s: LogStreamInfo) -> (r: LogStreamSummary)
    ensures
        r.name@ == or_empty(s.name),
        r.last_event_ms == s.last_event_ms,
        r.first_event_ms == s.first_event_ms,
{
    LogStreamSummary {
        name: unwrap_or_empty(s.name),
        last_event_ms: s.last_event_ms,
        first_event_ms: s.first_event_ms,
    }
}

/// A CloudWatch log event.
pub struct LogEventInfo {
    pub timestamp_ms: Option<i64>,
    pub message: Option<String>,
    pub stream: Option<String>,
}

pub struct LogEventSummary {
    pub timestamp_ms: Option<i64>,
    pub message: String,
    pub stream: String,
}

/// A log event as reported by `logs_tail`, `logs_search` and `lambda_get_logs`.
pub fn log_event_summary(e: LogEventInfo) -> (r: LogEventSummary)
    ensures
        r.timestamp_ms == e.timestamp_ms,
        r.message@ == or_empty(e.message),
        r.stream@ == or_empty(e.stream),
{
    LogEventSummary {
        timestamp_ms: e.timestamp_ms,
        message: unwrap_or_empty(e.message),
        stream: unwrap_or_empty(e.stream),
    }
}

/// An ECR repository.
pub struct RepositoryInfo {
    pub name: Option<String>,
    pub uri: Option<String>,
    pub created_at: Option<String>,
    pub image_tag_mutability: Option<String>,
}

pub struct RepositorySummary {
    pub name: String,
    pub uri: String,
    pub created_at: Option<String>,
    pub image_tag_mutability: String,
}

/// A repository as listed: an unknown tag mutability reads `"unknown"`.
pub fn repository_summary(r: RepositoryInfo) -> (s: RepositorySummary)
    ensures
        s.name@ == or_empty(r.name),
        s.uri@ == or_empty(r.uri),
        s.created_at == r.created_at,
        s.image_tag_mutability@ == match r.image_tag_mutability {
            Some(m) => m@,
            None => "unknown"@,
        },
{
    RepositorySummary {
        name: unwrap_or_empty(r.name),
        uri: unwrap_or_empty(r.uri),
        created_at: r.created_at,
        image_tag_mutability: unwrap_or_text(r.image_tag_mutability, "unknown"),
    }
}

/// An ECR image.
pub struct ImageInfo {
    pub digest: Option<String>,
    pub tags: Vec<String>,
    pub pushed_at: Option<String>,
    pub size_bytes: Option<i64>,
}

pub struct ImageSummary {
    pub digest: String,
    pub tags: Vec<String>,
    pub pushed_at: Option<String>,
    pub size_bytes: Option<i64>,
}

/// An image as listed.
pub fn image_summary(i: ImageInfo) -> (s: ImageSummary)
    ensures
        s.digest@ == or_empty(i.digest),
        s.tags == i.tags,
        s.pushed_at == i.pushed_at,
        s.size_bytes == i.size_bytes,
{
    ImageSummary {
        digest: unwrap_or_empty(i.digest),
        tags: i.tags,
        pushed_at: i.pushed_at,
        size_bytes: i.size_bytes,
    }
}

/// A Lambda function's configuration.
pub struct FunctionInfo {
    pub name: Option<String>,
    pub runtime: Option<String>,
    pub handler: Option<String>,
    pub memory_mb: Option<i32>,
    pub timeout_secs: Option<i32>,
    pub last_modified: Option<String>,
    pub description: Option<String>,
}

pub struct FunctionSummary {
    pub name: String,
    pub runtime: String,
    pub handler: String,
    pub memory_mb: i32,
    pub timeout_secs: i32,
    pub last_modified: String,
    pub description: String,
}

/// A function as listed, with Lambda's defaults for what the record leaves
/// out: runtime `"unknown"`, 128 MB of memory, a 3-second timeout.
pub fn function_summary(f: FunctionInfo) -> (s: FunctionSummary)
    ensures
        s.name@ == or_empty(f.name),
        s.runtime@ == match f.runtime {
            Some(r) => r@,
            None => "unknown"@,
        },
        s.handler@ == or_empty(f.handler),
        s.memory_mb == match f.memory_mb {
            Some(m) => m,
            None => 128,
        },
        s.timeout_secs == match f.timeout_secs {
            Some(t) => t,
            None => 3,
        },
        s.last_modified@ == or_empty(f.last_modified),
        s.description@ == or_empty(f.description),
{
    FunctionSummary {
        name: unwrap_or_empty(f.name),
        runtime: unwrap_or_text(f.runtime, "unknown"),
        handler: unwrap_or_empty(f.handler),
        memory_mb: match f.memory_mb {
            Some(m) => m,
            None => 128,
        },
        timeout_secs: match f.timeout_secs {
            Some(t) => t,
            None => 3,
        },
        last_modified: unwrap_or_empty(f.last_modified),
        description: unwrap_or_empty(f.description),
    }
}

/// An S3 object.
pub struct ObjectInfo {
    pub key: Option<String>,
    pub size: Option<i64>,
    pub last_modified: Option<String>,
}

pub struct ObjectSummary {
    pub key: String,
    pub size: i64,
    pub last_modified: Option<String>,
}

/// An object as listed: a missing size counts as zero.
pub fn object_summary(o: ObjectInfo) -> (s: ObjectSummary)
    ensures
        s.key@ == or_empty(o.key),
        s.size == match o.size {
            Some(b) => b,
            None => 0,
        },
        s.last_modified == o.last_modified,
{
    ObjectSummary {
        key: unwrap_or_empty(o.key),
        size: match o.size {
            Some(b) => b,
            None => 0,
        },
        last_modified: o.last_modified,
    }
}

/// The names that are present, in order.
pub open spec fn present(names: Seq<Option<String>>) -> Seq<String>
    decreases names.len(),
{
    if names.len() == 0 {
        seq![]
    } else {
        let rest = present(names.drop_last());
        match names.last() {
            Some(n) => rest.push(n),
            None => rest,
        }
    }
}

/// The bucket names are those of the buckets that have one, each once, in
/// the listing's order.
pub proof fn lemma_present_are_the_named(names: Seq<Option<String>>)
    ensures
        present(names) == names.filter(|o: Option<String>| o is Some).map_values(
            |o: Option<String>| o->Some_0,
        ),
    decreases names.len(),
{
    reveal(Seq::filter);
    if names.len() > 0 {
        lemma_present_are_the_named(names.drop_last());
        let f = names.drop_last().filter(|o: Option<String>| o is Some);
        if names.last() is Some {
            assert(f.push(names.last()).map_values(|o: Option<String>| o->Some_0) =~= f.map_values(
                |o: Option<String>| o->Some_0,
            ).push(names.last()->Some_0));
        }
    }
}

/// The bucket names of a listing; buckets without a name are left out.
pub fn bucket_names(names: Vec<Option<String>>) -> (r: Vec<String>)
    ensures
        r@ == present(names@),
{
    let ghost all = names@;
    let mut r: Vec<String> = Vec::new();
    let n = names.len();
    let mut i: usize = 0;
    while i < n
        invariant
            n == all.len(),
            i <= n,
            r@ == present(all.take(i as int)),
            names@ == all,
        decreases n - i,
    {
        assert(all.take(i + 1).drop_last() =~= all.take(i as int));
        assert(all.take(i + 1).last() == all[i as int]);
        let entry = names[i].clone();
        match entry {
            Some(s) => {
                r.push(s);
            },
            None => {},
        }
        i = i + 1;
    }
    assert(all.take(n as int) =~= all);
    r
}

/// The region of a bucket from its location constraint: buckets in
/// `us-east-1` have none or an empty one.
pub fn bucket_region(location: Option<String>) -> (r: String)
    ensures
        r@ == match location {
            Some(l) => if l@.len() == 0 {
                "us-east-1"@
            } else {
                l@
            },
            None => "us-east-1"@,
        },
{
    match location {
        Some(l) => if l.as_str().is_empty() {
            String::from_str("us-east-1")
        } else {
            l
        },
        None => String::from_str("us-east-1"),
    }
}

/// Adds a page of results to those so far and says which page to ask for
/// next, if any.
pub fn collect_page<T>(acc: &mut Vec<T>, page: Vec<T>, next_token: Option<String>) -> (next: Option<String>)
    ensures
        final(acc)@ == old(acc)@ + page@,
        next == next_token,
{
    let mut page = page;
    acc.append(&mut page);
    next_token
}

/// How many of `len` results a limit of `max` keeps, if it stops the listing:
/// the limit taken as an unsigned number, once there are that many.
pub open spec fn limit_reached(len: nat, max: Option<i32>) -> bool {
    match max {
        Some(m) => len >= m as usize,
        None => false,
    }
}

/// A limit stops the listing once there are at least that many results;
/// without a limit it never stops.
pub proof fn lemma_limit_reached(len: nat, max: Option<i32>)
    ensures
        match max {
            None => !limit_reached(len, max),
            Some(m) => m >= 0 ==> (limit_reached(len, max) <==> len >= m),
        },
{
}

/// Adds a page of images to those so far; once there are at least `max` of
/// them, keeps the first `max` and stops, else goes on with the next page.
pub fn collect_limited_page<T>(acc: &mut Vec<T>, page: Vec<T>, max: Option<i32>, next_token: Option<String>) -> (next: Option<String>)
    ensures
        limit_reached((old(acc)@ + page@).len(), max) ==> {
            &&& final(acc)@ == (old(acc)@ + page@).take(max->Some_0 as usize as int)
            &&& next is None
        },
        !limit_reached((old(acc)@ + page@).len(), max) ==> {
            &&& final(acc)@ == old(acc)@ + page@
            &&& next == next_token
        },
{
    let mut page = page;
    acc.append(&mut page);
    match max {
        Some(m) => {
            let limit = m as usize;
            if acc.len() >= limit {
                acc.truncate(limit);
                return None;
            }
        },
        None => {},
    }
    next_token
}

/// An ECS task's container.
pub struct ContainerInfo {
    pub name: Option<String>,
    pub image: Option<String>,
    pub last_status: Option<String>,
}

pub struct ContainerSummary {
    pub name: String,
    pub image: String,
    pub status: String,
}

/// The logging setup of a container definition.
pub struct LogConfiguration {
    pub log_driver: String,
    pub options: Option<Vec<(String, String)>>,
}

/// A container definition of a task definition.
pub struct ContainerDefinitionInfo {
    pub name: Option<String>,
    pub log_configuration: Option<LogConfiguration>,
}

pub struct LogConfigSummary {
    pub container: String,
    pub log_driver: String,
    pub options: Option<Vec<(String, String)>>,
}

/// An ECS task.
pub struct TaskInfo {
    pub task_definition_arn: Option<String>,
    pub last_status: Option<String>,
    pub desired_status: Option<String>,
    pub started_at: Option<String>,
    pub stopped_at: Option<String>,
    pub stopped_reason: Option<String>,
    pub containers: Vec<ContainerInfo>,
}

/// What `ecs_describe_task` reports.
pub struct TaskDetail {
    pub task_arn: String,
    pub task_definition_arn: String,
    pub last_status: String,
    pub desired_status: String,
    pub started_at: Option<String>,
    pub stopped_at: Option<String>,
    pub stopped_reason: Option<String>,
    pub containers: Vec<ContainerSummary>,
    pub log_config: Vec<LogConfigSummary>,
}

/// The first task of a describe reply, or `TaskNotFound` for an empty one.
pub fn first_task(tasks: Vec<TaskInfo>, task_arn: &str) -> (r: Result<TaskInfo, ToolError>)
    ensures
        tasks@.len() == 0 ==> (r matches Err(e) && e@ == ErrorView::TaskNotFound(task_arn@)),
        tasks@.len() > 0 ==> r == Ok::<TaskInfo, ToolError>(tasks@[0]),
{
    let mut tasks = tasks;
    if tasks.len() == 0 {
        Err(ToolError::TaskNotFound(String::from_str(task_arn)))
    } else {
        Ok(tasks.swap_remove(0))
    }
}

/// The task definition to look up for a task (empty where it has none).
pub fn task_definition_arn(task: &TaskInfo) -> (s: String)
    ensures
        s@ == or_empty(task.task_definition_arn),
{
    match &task.task_definition_arn {
        Some(a) => a.clone(),
        None => String::new(),
    }
}

/// The log configurations of the definitions that have one, in order.
pub open spec fn logged(defs: Seq<ContainerDefinitionInfo>) -> Seq<ContainerDefinitionInfo>
    decreases defs.len(),
{
    if defs.len() == 0 {
        seq![]
    } else {
        let rest = logged(defs.drop_last());
        if defs.last().log_configuration is Some {
            rest.push(defs.last())
        } else {
            rest
        }
    }
}

/// The definitions that `ecs_describe_task` reports the logging of are
/// exactly those with a log configuration, each once, in their order.
pub proof fn lemma_logged_are_the_configured(defs: Seq<ContainerDefinitionInfo>)
    ensures
        logged(defs) == defs.filter(|d: ContainerDefinitionInfo| d.log_configuration is Some),
    decreases defs.len(),
{
    reveal(Seq::filter);
    if defs.len() > 0 {
        lemma_logged_are_the_configured(defs.drop_last());
    }
}

/// Whether `s` reports the container definition `d`, which has a log
/// configuration.
pub open spec fn reports_log_config(s: LogConfigSummary, d: ContainerDefinitionInfo) -> bool {
    &&& s.container@ == or_empty(d.name)
    &&& d.log_configuration matches Some(c) && s.log_driver == c.log_driver && s.options == c.options
}

/// Whether `s` reports the container `c`.
pub open spec fn reports_container(s: ContainerSummary, c: ContainerInfo) -> bool {
    &&& s.name@ == or_empty(c.name)
    &&& s.image@ == or_empty(c.image)
    &&& s.status@ == or_empty(c.last_status)
}

/// What `ecs_describe_task` reports of a task and the container definitions
/// of its task definition: its containers, and the log configuration of each
/// definition that has one.
pub fn task_detail(task_arn: String, task: TaskInfo, definitions: Vec<ContainerDefinitionInfo>) -> (d: TaskDetail)
    ensures
        d.task_arn == task_arn,
        d.task_definition_arn@ == or_empty(task.task_definition_arn),
        d.last_status@ == or_empty(task.last_status),
        d.desired_status@ == or_empty(task.desired_status),
        d.started_at == task.started_at,
        d.stopped_at == task.stopped_at,
        d.stopped_reason == task.stopped_reason,
        d.containers@.len() == task.containers@.len(),
        forall|i: int|
            0 <= i < d.containers@.len() ==> reports_container(
                #[trigger] d.containers@[i],
                task.containers@[i],
            ),
        d.log_config@.len() == logged(definitions@).len(),
        forall|i: int|
            0 <= i < d.log_config@.len() ==> reports_log_config(
                #[trigger] d.log_config@[i],
                logged(definitions@)[i],
            ),
{
    let task_definition_arn = task_definition_arn(&task);
    let TaskInfo {
        task_definition_arn: _,
        last_status,
        desired_status,
        started_at,
        stopped_at,
        stopped_reason,
        containers,
    } = task;
    let mut summaries: Vec<ContainerSummary> = Vec::new();
    let mut i: usize = 0;
    while i < containers.len()
        invariant
            i <= containers@.len(),
            summaries@.len() == i,
            forall|k: int|
                0 <= k < i ==> reports_container(#[trigger] summaries@[k], containers@[k]),
        decreases containers@.len() - i,
    {
        let c = &containers[i];
        summaries.push(
            ContainerSummary {
                name: unwrap_or_empty(c.name.clone()),
                image: unwrap_or_empty(c.image.clone()),
                status: unwrap_or_empty(c.last_status.clone()),
            },
        );
        i = i + 1;
    }
    let ghost defs = definitions@;
    let mut log_config: Vec<LogConfigSummary> = Vec::new();
    for d in it: definitions
        invariant
            it.seq() == defs,
            log_config@.len() == logged(defs.take(it.index() as int)).len(),
            forall|k: int|
                0 <= k < log_config@.len() ==> reports_log_config(
                    #[trigger] log_config@[k],
                    logged(defs.take(it.index() as int))[k],
                ),
    {
        let ghost j = it.index();
        assert(defs.take(j + 1).drop_last() =~= defs.take(j as int));
        assert(defs.take(j + 1).last() == defs[j as int]);
        let ContainerDefinitionInfo { name, log_configuration } = d;
        match log_configuration {
            Some(c) => {
                log_config.push(
                    LogConfigSummary {
                        container: unwrap_or_empty(name),
                        log_driver: c.log_driver,
                        options: c.options,
                    },
                );
            },
            None => {},
        }
    }
    assert(defs.take(defs.len() as int) =~= defs);
    TaskDetail {
        task_arn,
        task_definition_arn,
        last_status: unwrap_or_empty(last_status),
        desired_status: unwrap_or_empty(desired_status),
        started_at,
        stopped_at,
        stopped_reason,
        containers: summaries,
        log_config,
    }
}

} // verus!
