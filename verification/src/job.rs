//! The traversal scheduler's decision step: given one pending directory job,
//! the lines of its ignore file (when it has one) and its immediate child
//! directories, it extends the ignore context, anchors the file's patterns,
//! and keeps exactly the children the effective context does not ignore.
//!
//! The filesystem work around this step — finding the ignore file, reading
//! its lines, listing child directories, running the pending-job loop — is
//! the caller's: this step only decides.

use std::sync::Arc;
use vstd::prelude::*;

use crate::absolute_ignore::{read_patterns_from_lines, spec_line_ok, spec_patterns, RuleBodyError};
use crate::ignore_node::{
    chain_matches, compiled_verdict, dir_verdict, line_accepted, opt_chain, rule_set_compiles,
    share_node, IgnoreNode, MatcherError,
};

verus! {

/// One unit of traversal work: a directory to inspect, carrying the ignore
/// context it inherits from its ancestors.
pub struct Job {
    pub path: String,
    pub ignore_context: Option<Arc<IgnoreNode>>,
}

/// Why processing a job had to stop the run.
#[derive(Debug)]
pub enum JobError {
    /// An eligible ignore-file line parsed to a body the anchorer rejects: a
    /// defect in the rule set, aborted loudly rather than emitted wrongly.
    Rule(RuleBodyError),
    /// The matching capability rejected the rule set while compiling it.
    Matcher(MatcherError),
}

/// What processing one job produces.
pub struct JobOutcome {
    /// The anchored patterns of this directory's ignore file, or `None` when
    /// the directory has no ignore file — distinct from an empty list.
    pub patterns: Option<Vec<String>>,
    /// One new job per surviving child directory, in input order, each
    /// sharing the effective context.
    pub child_jobs: Vec<Job>,
    /// The effective ignore context from this directory down.
    pub context: Option<Arc<IgnoreNode>>,
}

/// The child paths the effective chain does not ignore, in input order.
pub open spec fn surviving(
    children: Seq<Seq<char>>,
    eff: Seq<ignore::gitignore::Gitignore>,
) -> Seq<Seq<char>>
    decreases children.len(),
{
    if children.len() == 0 {
        Seq::<Seq<char>>::empty()
    } else {
        let rest = surviving(children.drop_last(), eff);
        if !chain_matches(eff, children.last()) {
            rest.push(children.last())
        } else {
            rest
        }
    }
}

/// Processes one job: when the directory owns an ignore file, compiles its
/// lines into a new context node chained to the inherited one and anchors its
/// patterns to the job's directory; then keeps, as new jobs, exactly the
/// child directories the effective context does not ignore.
pub fn process_job(
    job: Job,
    ignore_file_lines: Option<&Vec<String>>,
    child_dirs: &Vec<String>,
) -> (r: Result<JobOutcome, JobError>)
    ensures
        r is Ok <==> match ignore_file_lines {
            Option::Some(lines) => {
                &&& forall|i: int| 0 <= i < lines@.len() ==> line_accepted(#[trigger] lines@[i]@)
                &&& rule_set_compiles(lines.deep_view())
                &&& forall|i: int| 0 <= i < lines@.len() ==> spec_line_ok(#[trigger] lines@[i]@)
            },
            Option::None => true,
        },
        r matches Ok(out) ==> {
            let eff = opt_chain(&out.context);
            &&& match ignore_file_lines {
                Option::Some(lines) => {
                    &&& eff.len() == 1 + opt_chain(&job.ignore_context).len()
                    &&& eff.skip(1) == opt_chain(&job.ignore_context)
                    &&& forall|p: Seq<char>|
                        #[trigger] dir_verdict(eff[0], p) == compiled_verdict(
                            job.path@,
                            lines.deep_view(),
                            p,
                        )
                    &&& out.patterns matches Some(v) && v.deep_view() == spec_patterns(
                        job.path@,
                        lines.deep_view(),
                    )
                },
                Option::None => {
                    &&& out.context == job.ignore_context
                    &&& out.patterns is None
                },
            }
            &&& out.child_jobs@.len() == surviving(child_dirs.deep_view(), eff).len()
            &&& forall|i: int|
                0 <= i < out.child_jobs@.len() ==> {
                    &&& (#[trigger] out.child_jobs@[i]).path@ == surviving(
                        child_dirs.deep_view(),
                        eff,
                    )[i]
                    &&& out.child_jobs@[i].ignore_context == out.context
                }
        },
        r is Err ==> ignore_file_lines is Some,
        r matches Err(JobError::Rule(e)) ==> ignore_file_lines matches Some(lines) && {
            &&& e.line_index < lines@.len()
            &&& !spec_line_ok(lines@[e.line_index as int]@)
            &&& forall|i: int| 0 <= i < e.line_index ==> spec_line_ok(#[trigger] lines@[i]@)
        },
        r matches Err(JobError::Matcher(e)) ==> ignore_file_lines matches Some(lines) && !{
            &&& forall|i: int| 0 <= i < lines@.len() ==> line_accepted(#[trigger] lines@[i]@)
            &&& rule_set_compiles(lines.deep_view())
        },
{
    let Job { path, ignore_context } = job;
    let mut context = ignore_context;
    let mut patterns: Option<Vec<String>> = None;
    if let Some(lines) = ignore_file_lines {
        let node = match IgnoreNode::new(path.as_str(), lines, context) {
            Ok(n) => n,
            Err(e) => {
                return Err(JobError::Matcher(e));
            },
        };
        context = Some(node);
        match read_patterns_from_lines(lines, path.as_str()) {
            Ok(v) => {
                patterns = Some(v);
            },
            Err(e) => {
                return Err(JobError::Rule(e));
            },
        }
    }
    let mut child_jobs: Vec<Job> = Vec::new();
    let ghost eff = opt_chain(&context);
    let n = child_dirs.len();
    let mut i: usize = 0;
    proof {
        assert(surviving(child_dirs.deep_view().take(0), eff) =~= Seq::<Seq<char>>::empty());
    }
    while i < n
        invariant
            i <= n,
            n == child_dirs@.len(),
            eff == opt_chain(&context),
            child_jobs@.len() == surviving(child_dirs.deep_view().take(i as int), eff).len(),
            forall|j: int|
                0 <= j < child_jobs@.len() ==> {
                    &&& (#[trigger] child_jobs@[j]).path@ == surviving(
                        child_dirs.deep_view().take(i as int),
                        eff,
                    )[j]
                    &&& child_jobs@[j].ignore_context == context
                },
        decreases n - i,
    {
        let child: &String = &child_dirs[i];
        let ignored = match &context {
            Option::Some(node) => node.matches(child.as_str()),
            Option::None => {
                proof {
                    assert(!chain_matches(eff, child@));
                }
                false
            },
        };
        if !ignored {
            let shared = match &context {
                Option::Some(node) => Option::Some(share_node(node)),
                Option::None => Option::None,
            };
            child_jobs.push(Job { path: child.clone(), ignore_context: shared });
        }
        proof {
            let c = child_dirs.deep_view();
            assert(c.take(i + 1).drop_last() =~= c.take(i as int));
            assert(c.take(i + 1).last() == child_dirs@[i as int]@);
        }
        i = i + 1;
    }
    proof {
        assert(child_dirs.deep_view().take(n as int) =~= child_dirs.deep_view());
    }
    Ok(JobOutcome { patterns, child_jobs, context })
}

} // verus!
