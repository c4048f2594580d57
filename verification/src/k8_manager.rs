//! What a batch job that is submitted to a cluster looks like.

use vstd::prelude::*;
use crate::text::owned;

verus! {

/// A batch job with one container, ready to be submitted.
#[derive(Debug)]
pub struct JobPlan {
    /// The namespace to submit to.
    pub namespace: String,
    /// The name of the job.
    pub job_name: String,
    /// The name of its only container.
    pub container_name: String,
    /// The image that the container runs.
    pub image: String,
    /// What the cluster does when the container ends.
    pub restart_policy: String,
}

/// Plans the job `job_name` that runs `image_uri`: in the namespace `default`, with one
/// container named like the job, which is never restarted.
pub fn create_k8s_job(job_name: &str, image_uri: &str) -> (plan: JobPlan)
    ensures
        plan.namespace@ == "default"@,
        plan.job_name@ == job_name@,
        plan.container_name@ == job_name@,
        plan.image@ == image_uri@,
        plan.restart_policy@ == "Never"@,
{
    JobPlan {
        namespace: owned("default"),
        job_name: owned(job_name),
        container_name: owned(job_name),
        image: owned(image_uri),
        restart_policy: owned("Never"),
    }
}

} // verus!
