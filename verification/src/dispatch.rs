use vstd::prelude::*;
use vstd::string::StringExecFns;

verus! {

/// How many burst groups the load test dispatches.
pub const OUTER_BURSTS: u64 = 10;

/// How many submissions each burst group makes.
pub const INNER_BURSTS: u64 = 5;

/// The pause, in seconds, taken on the dispatch path before each burst
/// group is spawned.
pub const BURST_SPACING_SECS: u64 = 5;

/// One step of the load-test dispatch: pause, then spawn a group of
/// concurrent submissions.
#[derive(Clone, Copy, PartialEq, Eq, Structural, Debug)]
pub struct DispatchStep {
    pub delay_before_secs: u64,
    pub submissions: u64,
}

/// The number of submissions a plan makes in all.
pub open spec fn total_submissions(plan: Seq<DispatchStep>) -> int
    decreases plan.len(),
{
    if plan.len() == 0 {
        0
    } else {
        total_submissions(plan.drop_last()) + plan.last().submissions
    }
}

/// A plan whose steps each submit five jobs submits five per step.
pub proof fn lemma_total_of_fives(plan: Seq<DispatchStep>)
    requires
        forall|i: int| 0 <= i < plan.len() ==> (#[trigger] plan[i]).submissions == 5,
    ensures
        total_submissions(plan) == plan.len() * 5,
    decreases plan.len(),
{
    if plan.len() > 0 {
        lemma_total_of_fives(plan.drop_last());
    }
}

/// Dispatch law: the load-test plan submits exactly fifty jobs, ten
/// groups of five, each group five seconds after the one before.
pub proof fn lemma_plan_submits_fifty(plan: Seq<DispatchStep>)
    requires
        plan.len() == OUTER_BURSTS as int,
        forall|i: int|
            0 <= i < plan.len() ==> (#[trigger] plan[i]).submissions == INNER_BURSTS
                && plan[i].delay_before_secs == BURST_SPACING_SECS,
    ensures
        total_submissions(plan) == 50,
{
    lemma_total_of_fives(plan);
}

/// The load-test dispatch plan: ten groups of five submissions, a
/// five-second pause before each group.
pub fn load_test_plan() -> (r: Vec<DispatchStep>)
    ensures
        r@.len() == OUTER_BURSTS as int,
        forall|i: int|
            0 <= i < r@.len() ==> (#[trigger] r@[i]).submissions == INNER_BURSTS
                && r@[i].delay_before_secs == BURST_SPACING_SECS,
        total_submissions(r@) == 50,
{
    let mut r: Vec<DispatchStep> = Vec::new();
    let mut i: u64 = 0;
    while i < OUTER_BURSTS
        invariant
            i <= OUTER_BURSTS,
            r@.len() == i as int,
            forall|k: int|
                0 <= k < r@.len() ==> (#[trigger] r@[k]).submissions == INNER_BURSTS
                    && r@[k].delay_before_secs == BURST_SPACING_SECS,
        decreases OUTER_BURSTS - i,
    {
        r.push(
            DispatchStep { delay_before_secs: BURST_SPACING_SECS, submissions: INNER_BURSTS },
        );
        i = i + 1;
    }
    proof {
        lemma_plan_submits_fifty(r@);
    }
    r
}

/// The fixed container-override payload submitted with every load-test
/// job: its environment variables, resource requirements and command
/// arguments as one JSON document, passed verbatim.
pub open spec fn container_overrides_spec() -> Seq<char> {
    r#"
{
    "environment": [
        { "name": "STAGE", "value": "stage" },
        { "name": "CORR_ID", "value": "42c6d830-1f17-11ed-8dc3-cbe6144980fb" },
        { "name": "java_opts", "value": "" }
    ],
    "resourceRequirements": [
        { "type": "MEMORY", "value": "2048" },
        { "type": "VCPU", "value": "1" }
    ],
    "command": ["-J-XX:+UseContainerSupport","-J-XX:InitialRAMPercentage=80.0","-J-XX:MaxRAMPercentage=80.0","-main","io.wisesystems.engine.planning.Main","02083785-1978-454f-8b97-2ce66cb0a86d/2022/08/18/1660842028339.json","lrsStart"]
}
"#@
}

/// The container-override payload itself.
pub fn container_overrides() -> (r: &'static str)
    ensures
        r@ == container_overrides_spec(),
{
    r#"
{
    "environment": [
        { "name": "STAGE", "value": "stage" },
        { "name": "CORR_ID", "value": "42c6d830-1f17-11ed-8dc3-cbe6144980fb" },
        { "name": "java_opts", "value": "" }
    ],
    "resourceRequirements": [
        { "type": "MEMORY", "value": "2048" },
        { "type": "VCPU", "value": "1" }
    ],
    "command": ["-J-XX:+UseContainerSupport","-J-XX:InitialRAMPercentage=80.0","-J-XX:MaxRAMPercentage=80.0","-main","io.wisesystems.engine.planning.Main","02083785-1978-454f-8b97-2ce66cb0a86d/2022/08/18/1660842028339.json","lrsStart"]
}
"#
}

/// The vendor client's argument vector that lists the queue's succeeded
/// jobs as JSON: `batch list-jobs --job-queue scheduler-<stage>
/// --job-status Succeeded --output json`.
pub fn list_jobs_args(stage: &str) -> (r: Vec<String>)
    ensures
        r@.len() == 8,
        r@[0]@ == "batch"@,
        r@[1]@ == "list-jobs"@,
        r@[2]@ == "--job-queue"@,
        r@[3]@ == "scheduler-"@ + stage@,
        r@[4]@ == "--job-status"@,
        r@[5]@ == "Succeeded"@,
        r@[6]@ == "--output"@,
        r@[7]@ == "json"@,
{
    let mut queue = "scheduler-".to_owned();
    queue.append(stage);
    let mut r: Vec<String> = Vec::new();
    r.push("batch".to_owned());
    r.push("list-jobs".to_owned());
    r.push("--job-queue".to_owned());
    r.push(queue);
    r.push("--job-status".to_owned());
    r.push("Succeeded".to_owned());
    r.push("--output".to_owned());
    r.push("json".to_owned());
    r
}

/// The vendor client's argument vector that submits one load-test job:
/// `batch submit-job --job-name load-testing-cold-start --job-queue
/// scheduler-stage --job-definition <arn> --container-overrides
/// <payload>`.
pub fn submit_job_args() -> (r: Vec<String>)
    ensures
        r@.len() == 10,
        r@[0]@ == "batch"@,
        r@[1]@ == "submit-job"@,
        r@[2]@ == "--job-name"@,
        r@[3]@ == "load-testing-cold-start"@,
        r@[4]@ == "--job-queue"@,
        r@[5]@ == "scheduler-stage"@,
        r@[6]@ == "--job-definition"@,
        r@[7]@ == "arn:aws:batch:us-east-1:663148821630:job-definition/run-scheduler-stage:8"@,
        r@[8]@ == "--container-overrides"@,
        r@[9]@ == container_overrides_spec(),
{
    let mut r: Vec<String> = Vec::new();
    r.push("batch".to_owned());
    r.push("submit-job".to_owned());
    r.push("--job-name".to_owned());
    r.push("load-testing-cold-start".to_owned());
    r.push("--job-queue".to_owned());
    r.push("scheduler-stage".to_owned());
    r.push("--job-definition".to_owned());
    r.push(
        "arn:aws:batch:us-east-1:663148821630:job-definition/run-scheduler-stage:8".to_owned(),
    );
    r.push("--container-overrides".to_owned());
    r.push(container_overrides().to_owned());
    r
}

} // verus!
