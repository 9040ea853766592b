//! The chained ignore-context matcher: one immutable node per directory that
//! owns an ignore file, each wrapping that directory's compiled pattern set
//! and an optional shared reference to the parent directory's node.
//!
//! The glob-matching primitive itself is an outside capability: the `ignore`
//! crate compiles a rule set against a base directory and returns a verdict
//! for a candidate path. Which lines a matcher was compiled from, and what it
//! answers, are stated through named, uninterpreted results of that
//! capability; this module verifies what is fed to the compile and how the
//! chain combines the verdicts, never what one compiled glob matches.

use std::sync::Arc;
use vstd::prelude::*;

verus! {

#[verifier::external_type_specification]
#[verifier::external_body]
pub struct ExGitignore(ignore::gitignore::Gitignore);

#[verifier::external_type_specification]
#[verifier::external_body]
pub struct ExGitignoreBuilder(ignore::gitignore::GitignoreBuilder);

#[verifier::external_type_specification]
#[verifier::external_body]
pub struct ExIgnoreError(ignore::Error);

/// The verdict of one compiled pattern set for one candidate directory path.
#[derive(Debug, Clone, Copy, PartialEq, Eq, Structural)]
pub enum Verdict {
    /// The highest-precedence matching rule says the path is ignored.
    Ignore,
    /// The highest-precedence matching rule is a negation: the path is kept.
    Whitelist,
    /// No rule of this pattern set matches the path.
    NoMatch,
}

/// What `ignore::gitignore::Gitignore::matched` answers for a candidate
/// directory path: a function of the compiled matcher and the path alone.
pub uninterp spec fn dir_verdict(m: ignore::gitignore::Gitignore, path: Seq<char>) -> Verdict;

/// Relies on `ignore::gitignore::Gitignore::matched`, asked with `is_dir`
/// true: its verdict depends on the compiled matcher and the candidate path
/// alone.
#[verifier::external_body]
fn gitignore_matched_dir(m: &ignore::gitignore::Gitignore, path: &str) -> (v: Verdict)
    ensures
        v == dir_verdict(*m, path@),
{
    match m.matched(path, true) {
        ignore::Match::None => Verdict::NoMatch,
        ignore::Match::Ignore(_) => Verdict::Ignore,
        ignore::Match::Whitelist(_) => Verdict::Whitelist,
    }
}

/// Whether the glob engine accepts one ignore-file line. For the builders
/// this module makes (the crate's default build options), acceptance by
/// `GitignoreBuilder::add_line` is a function of the line alone: the line is
/// parsed by a pure glob parser, and comment and blank lines are accepted and
/// skipped.
pub uninterp spec fn line_accepted(line: Seq<char>) -> bool;

/// The root directory a builder was made with.
pub uninterp spec fn builder_root(b: ignore::gitignore::GitignoreBuilder) -> Seq<char>;

/// The glob lines handed to a builder so far, in order; comment and blank
/// lines are included, since the engine accepts and skips them itself.
pub uninterp spec fn builder_lines(b: ignore::gitignore::GitignoreBuilder) -> Seq<Seq<char>>;

/// Whether a whole rule set compiles into a matcher: for the default build
/// options, a function of the fed lines alone.
pub uninterp spec fn rule_set_compiles(lines: Seq<Seq<char>>) -> bool;

/// What the matcher compiled from `lines` against the directory `root`
/// answers for a candidate directory path.
pub uninterp spec fn compiled_verdict(
    root: Seq<char>,
    lines: Seq<Seq<char>>,
    path: Seq<char>,
) -> Verdict;

/// Relies on `ignore::gitignore::GitignoreBuilder::new`: an empty builder,
/// with the default build options, whose globs are later matched relative to
/// `root`.
#[verifier::external_body]
fn gitignore_builder_new(root: &str) -> (b: ignore::gitignore::GitignoreBuilder)
    ensures
        builder_root(b) == root@,
        builder_lines(b) == Seq::<Seq<char>>::empty(),
{
    ignore::gitignore::GitignoreBuilder::new(root)
}

/// Relies on `ignore::gitignore::GitignoreBuilder::add_line`: adds one glob
/// line to the builder; the glob engine accepts or rejects the line by its
/// text alone, returns an error rather than panicking, and on success has fed
/// exactly this line more.
#[verifier::external_body]
fn gitignore_builder_add_line(
    b: &mut ignore::gitignore::GitignoreBuilder,
    line: &str,
) -> (r: Result<(), ignore::Error>)
    ensures
        r is Ok <==> line_accepted(line@),
        r is Ok ==> {
            &&& builder_root(*final(b)) == builder_root(*old(b))
            &&& builder_lines(*final(b)) == builder_lines(*old(b)).push(line@)
        },
{
    match b.add_line(None, line) {
        Ok(_) => Ok(()),
        Err(e) => Err(e),
    }
}

/// Relies on `ignore::gitignore::GitignoreBuilder::build`: compiles the fed
/// lines into one matcher. Success, and every verdict of the built matcher,
/// are functions of the builder's root and fed lines alone.
#[verifier::external_body]
fn gitignore_builder_build(b: &ignore::gitignore::GitignoreBuilder) -> (r: Result<
    ignore::gitignore::Gitignore,
    ignore::Error,
>)
    ensures
        r is Ok <==> rule_set_compiles(builder_lines(*b)),
        r matches Ok(m) ==> forall|p: Seq<char>|
            #[trigger] dir_verdict(m, p) == compiled_verdict(builder_root(*b), builder_lines(*b), p),
{
    b.build()
}

/// Relies on std's `Arc::clone`: the clone is a new shared reference to the
/// same node.
#[verifier::external_body]
pub(crate) fn share_node(v: &Arc<IgnoreNode>) -> (r: Arc<IgnoreNode>)
    ensures
        r == *v,
{
    Arc::clone(v)
}

/// A rule set the matching capability rejected while compiling.
#[derive(Debug)]
pub struct MatcherError {
    pub source: ignore::Error,
}

/// One directory's compiled pattern set, chained to the node of the nearest
/// ancestor directory that owns an ignore file. Immutable after creation and
/// shared by every job descending from its directory.
pub struct IgnoreNode {
    matcher: ignore::gitignore::Gitignore,
    parent: Option<Arc<IgnoreNode>>,
}

impl IgnoreNode {
    /// The compiled matchers from this node up to the root, nearest first.
    pub closed spec fn chain(&self) -> Seq<ignore::gitignore::Gitignore>
        decreases *self,
    {
        match self.parent {
            Option::Some(p) => seq![self.matcher] + p.chain(),
            Option::None => seq![self.matcher],
        }
    }
}

/// The matcher chain of an optional context: an absent context is an empty
/// chain.
pub open spec fn opt_chain(ctx: &Option<Arc<IgnoreNode>>) -> Seq<ignore::gitignore::Gitignore> {
    match ctx {
        Option::Some(n) => n.chain(),
        Option::None => Seq::<ignore::gitignore::Gitignore>::empty(),
    }
}

/// The chained verdict, asked nearest-to-candidate first: an ignore verdict
/// decides "ignored", an explicit whitelist verdict decides "kept", no match
/// passes the question to the parent, and an exhausted chain keeps the path.
pub open spec fn chain_matches(
    chain: Seq<ignore::gitignore::Gitignore>,
    path: Seq<char>,
) -> bool
    decreases chain.len(),
{
    if chain.len() == 0 {
        false
    } else {
        match dir_verdict(chain[0], path) {
            Verdict::Ignore => true,
            Verdict::Whitelist => false,
            Verdict::NoMatch => chain_matches(chain.skip(1), path),
        }
    }
}

impl IgnoreNode {
    /// Compiles one directory's ignore-file lines against that directory and
    /// chains the node to the inherited context. Succeeds exactly when the
    /// glob engine accepts every line and the set compiles; the new head
    /// matcher then answers as the compile of (`base_dir`, `lines`), so a node
    /// with a partially loaded rule set is never produced.
    pub fn new(base_dir: &str, lines: &Vec<String>, parent: Option<Arc<IgnoreNode>>) -> (r: Result<
        Arc<IgnoreNode>,
        MatcherError,
    >)
        ensures
            r is Ok <==> {
                &&& forall|i: int| 0 <= i < lines@.len() ==> line_accepted(#[trigger] lines@[i]@)
                &&& rule_set_compiles(lines.deep_view())
            },
            r matches Ok(node) ==> {
                &&& node.chain().len() == 1 + opt_chain(&parent).len()
                &&& node.chain().skip(1) == opt_chain(&parent)
                &&& forall|p: Seq<char>|
                    #[trigger] dir_verdict(node.chain()[0], p) == compiled_verdict(
                        base_dir@,
                        lines.deep_view(),
                        p,
                    )
            },
    {
        let ghost parent_chain = opt_chain(&parent);
        let mut builder = gitignore_builder_new(base_dir);
        let n = lines.len();
        let mut i: usize = 0;
        proof {
            assert(builder_lines(builder) =~= lines.deep_view().take(0));
        }
        while i < n
            invariant
                i <= n,
                n == lines@.len(),
                builder_root(builder) == base_dir@,
                builder_lines(builder) == lines.deep_view().take(i as int),
                forall|j: int| 0 <= j < i ==> line_accepted(#[trigger] lines@[j]@),
            decreases n - i,
        {
            match gitignore_builder_add_line(&mut builder, lines[i].as_str()) {
                Ok(_) => {},
                Err(e) => {
                    return Err(MatcherError { source: e });
                },
            }
            proof {
                assert(lines.deep_view().take(i + 1) =~= lines.deep_view().take(i as int).push(
                    lines@[i as int]@,
                ));
            }
            i = i + 1;
        }
        proof {
            assert(lines.deep_view().take(n as int) =~= lines.deep_view());
        }
        match gitignore_builder_build(&builder) {
            Ok(matcher) => {
                let node = IgnoreNode { matcher, parent };
                proof {
                    assert(node.chain().skip(1) =~= parent_chain);
                    assert(node.chain()[0] == matcher);
                }
                Ok(Arc::new(node))
            },
            Err(e) => Err(MatcherError { source: e }),
        }
    }

    /// Whether the chain ignores the candidate directory path: this node's
    /// verdict decides, and only when it has none is the parent asked.
    pub fn matches(&self, path: &str) -> (r: bool)
        ensures
            r == chain_matches(self.chain(), path@),
        decreases *self,
    {
        let v = gitignore_matched_dir(&self.matcher, path);
        proof {
            assert(self.chain().len() >= 1);
            assert(self.chain()[0] == self.matcher);
        }
        match v {
            Verdict::Ignore => {
                proof {
                    assert(chain_matches(self.chain(), path@));
                }
                true
            },
            Verdict::Whitelist => {
                proof {
                    assert(!chain_matches(self.chain(), path@));
                }
                false
            },
            Verdict::NoMatch => {
                match &self.parent {
                    Option::Some(p) => {
                        proof {
                            assert(self.chain().skip(1) =~= p.chain());
                        }
                        let r = p.matches(path);
                        proof {
                            assert(r == chain_matches(self.chain(), path@));
                        }
                        r
                    },
                    Option::None => {
                        proof {
                            assert(self.chain().skip(1) =~= Seq::<
                                ignore::gitignore::Gitignore,
                            >::empty());
                            assert(!chain_matches(self.chain().skip(1), path@));
                            assert(!chain_matches(self.chain(), path@));
                        }
                        false
                    },
                }
            },
        }
    }
}

} // verus!
