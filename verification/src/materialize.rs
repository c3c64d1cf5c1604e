//! Planning where build artifacts are materialized.
//!
//! A build yields either one compiled artifact or one artifact per entry
//! point.  Materialization copies each artifact from where the compiler
//! left it to its final place under the output directory: the single
//! artifact is named after the source file, each multi-module artifact
//! after its sanitized entry point, and every final name carries the
//! artifact extension `.spv`.  This module computes that plan — a sequence
//! of copies, each with a source and a destination — as a proven function
//! of the build result, the output directory and the fallback file name.

use vstd::prelude::*;

use crate::paths::{clone_bytes, join, join_spec, with_spv_extension, with_spv_spec, DOT,
    last_dot_spec, SLASH};
use crate::sanitize::{sanitize_entry_point, sanitize_spec};

verus! {

/// One compiled artifact of a multi-module build, named by its entry
/// point.
pub struct ModuleArtifact {
    /// The fully qualified entry-point name, such as `pkg::vertex_main`.
    pub entry_point: Vec<u8>,
    /// The path where the compiler left the artifact.
    pub artifact: Vec<u8>,
}

/// The mathematical view of a [`ModuleArtifact`].
pub struct ModuleArtifactView {
    pub entry_point: Seq<u8>,
    pub artifact: Seq<u8>,
}

impl View for ModuleArtifact {
    type V = ModuleArtifactView;

    open spec fn view(&self) -> ModuleArtifactView {
        ModuleArtifactView { entry_point: self.entry_point@, artifact: self.artifact@ }
    }
}

/// What a build produced: one combined artifact, or one artifact per
/// entry point.
pub enum BuildResult {
    /// A single-module build left one artifact at this path.
    Single { artifact: Vec<u8> },
    /// A multi-module build left one artifact per entry point.
    Multi { modules: Vec<ModuleArtifact> },
}

/// The mathematical view of a [`BuildResult`].
pub enum BuildResultView {
    Single { artifact: Seq<u8> },
    Multi { modules: Seq<ModuleArtifactView> },
}

impl View for BuildResult {
    type V = BuildResultView;

    open spec fn view(&self) -> BuildResultView {
        match self {
            BuildResult::Single { artifact } => BuildResultView::Single { artifact: artifact@ },
            BuildResult::Multi { modules } => BuildResultView::Multi {
                modules: Seq::new(modules@.len(), |i: int| modules@[i]@),
            },
        }
    }
}

/// One planned copy: the artifact at `source` goes to `dest`, replacing
/// whatever file may already be there.
pub struct CopyJob {
    pub source: Vec<u8>,
    pub dest: Vec<u8>,
}

/// The mathematical view of a [`CopyJob`].
pub struct CopyJobView {
    pub source: Seq<u8>,
    pub dest: Seq<u8>,
}

impl View for CopyJob {
    type V = CopyJobView;

    open spec fn view(&self) -> CopyJobView {
        CopyJobView { source: self.source@, dest: self.dest@ }
    }
}

/// The final path of an artifact named `name` under `dir`: the name with
/// the artifact extension forced, joined onto the directory.
pub open spec fn dest_spec(dir: Seq<u8>, name: Seq<u8>) -> Seq<u8> {
    join_spec(dir, with_spv_spec(name))
}

/// The whole plan.  A single-module result is copied to
/// `output_dir/<fallback_file_name with .spv>`; a multi-module result is
/// copied entry point by entry point, in the order given, to
/// `output_dir/<sanitized name with .spv>`.
pub open spec fn materialize_spec(
    result: BuildResultView,
    output_dir: Seq<u8>,
    fallback_file_name: Seq<u8>,
) -> Seq<CopyJobView> {
    match result {
        BuildResultView::Single { artifact } => seq![
            CopyJobView { source: artifact, dest: dest_spec(output_dir, fallback_file_name) },
        ],
        BuildResultView::Multi { modules } => Seq::new(
            modules.len(),
            |i: int|
                CopyJobView {
                    source: modules[i].artifact,
                    dest: dest_spec(output_dir, sanitize_spec(modules[i].entry_point)),
                },
        ),
    }
}

/// The views of a vector of planned copies.
pub open spec fn jobs_view(jobs: Seq<CopyJob>) -> Seq<CopyJobView> {
    Seq::new(jobs.len(), |i: int| jobs[i]@)
}

/// Computes the copy plan for `result`: exactly one job for a
/// single-module result, exactly one job per module otherwise, with the
/// destinations that [`materialize_spec`] names.  The plan depends on
/// nothing but its arguments, so planning the same build twice plans the
/// same copies.
pub fn materialize_plan(
    result: &BuildResult,
    output_dir: &Vec<u8>,
    fallback_file_name: &Vec<u8>,
) -> (r: Vec<CopyJob>)
    ensures
        jobs_view(r@) == materialize_spec(result@, output_dir@, fallback_file_name@),
{
    match result {
        BuildResult::Single { artifact } => {
            let named = with_spv_extension(fallback_file_name);
            let dest = join(output_dir, &named);
            let source = clone_bytes(artifact);
            let mut jobs: Vec<CopyJob> = Vec::new();
            jobs.push(CopyJob { source, dest });
            proof {
                assert(jobs_view(jobs@) =~= materialize_spec(
                    result@,
                    output_dir@,
                    fallback_file_name@,
                ));
            }
            jobs
        },
        BuildResult::Multi { modules } => {
            let mut jobs: Vec<CopyJob> = Vec::new();
            let mut i: usize = 0;
            while i < modules.len()
                invariant
                    i <= modules@.len(),
                    jobs@.len() == i,
                    forall|k: int|
                        0 <= k < i as int ==> #[trigger] jobs@[k]@ == (CopyJobView {
                            source: modules@[k]@.artifact,
                            dest: dest_spec(output_dir@, sanitize_spec(modules@[k]@.entry_point)),
                        }),
                decreases modules@.len() - i,
            {
                let name = sanitize_entry_point(&modules[i].entry_point);
                let named = with_spv_extension(&name);
                let dest = join(output_dir, &named);
                let source = clone_bytes(&modules[i].artifact);
                jobs.push(CopyJob { source, dest });
                i = i + 1;
            }
            proof {
                assert(jobs_view(jobs@) =~= materialize_spec(
                    result@,
                    output_dir@,
                    fallback_file_name@,
                ));
            }
            jobs
        },
    }
}

/// A name without the extension dot gains `.spv` unshortened.
proof fn lemma_no_dot_keeps_name(s: Seq<u8>)
    requires
        forall|k: int| 0 <= k < s.len() ==> #[trigger] s[k] != DOT,
    ensures
        last_dot_spec(s) == -1,
        with_spv_spec(s) == s + crate::paths::spv_suffix_spec(),
    decreases s.len(),
{
    if s.len() > 1 {
        assert(s[s.len() - 1] != DOT);
        assert forall|k: int| 0 <= k < s.drop_last().len() implies #[trigger] s.drop_last()[k]
            != DOT by {
            assert(s.drop_last()[k] == s[k]);
        }
        lemma_no_dot_keeps_name(s.drop_last());
    }
}

/// For a fixed directory, two distinct dot-free names get distinct
/// destinations.
proof fn lemma_dest_injective(dir: Seq<u8>, a: Seq<u8>, b: Seq<u8>)
    requires
        forall|k: int| 0 <= k < a.len() ==> #[trigger] a[k] != DOT,
        forall|k: int| 0 <= k < b.len() ==> #[trigger] b[k] != DOT,
        a != b,
    ensures
        dest_spec(dir, a) != dest_spec(dir, b),
{
    lemma_no_dot_keeps_name(a);
    lemma_no_dot_keeps_name(b);
    let suffix = crate::paths::spv_suffix_spec();
    let p: int = if dir.len() == 0 {
        0
    } else if dir[dir.len() - 1] == SLASH {
        dir.len() as int
    } else {
        dir.len() as int + 1
    };
    let da = dest_spec(dir, a);
    let db = dest_spec(dir, b);
    assert(da.len() == p + a.len() + suffix.len());
    assert(db.len() == p + b.len() + suffix.len());
    assert forall|k: int| 0 <= k < a.len() implies da[p + k] == #[trigger] a[k] by {}
    assert forall|k: int| 0 <= k < b.len() implies db[p + k] == #[trigger] b[k] by {}
    if da == db {
        assert(a.len() == b.len());
        assert forall|k: int| 0 <= k < a.len() implies #[trigger] a[k] == b[k] by {
            assert(a[k] == da[p + k]);
            assert(b[k] == db[p + k]);
        }
        assert(a =~= b);
        assert(false);
    }
}

/// For a multi-module result whose sanitized entry-point names are
/// pairwise distinct and free of the extension dot, the plan has exactly
/// one copy per module and no two copies share a destination: the build
/// materializes into exactly as many files as it has entry points.
pub proof fn lemma_multi_destinations_distinct(
    modules: Seq<ModuleArtifactView>,
    output_dir: Seq<u8>,
    fallback_file_name: Seq<u8>,
)
    requires
        forall|i: int, j: int|
            0 <= i < modules.len() && 0 <= j < modules.len() && i != j ==> sanitize_spec(
                #[trigger] modules[i].entry_point,
            ) != sanitize_spec(#[trigger] modules[j].entry_point),
        forall|i: int, k: int|
            0 <= i < modules.len() && 0 <= k < sanitize_spec(
                #[trigger] modules[i].entry_point,
            ).len() ==> #[trigger] sanitize_spec(modules[i].entry_point)[k] != DOT,
    ensures
        materialize_spec(
            BuildResultView::Multi { modules },
            output_dir,
            fallback_file_name,
        ).len() == modules.len(),
        forall|i: int, j: int|
            0 <= i < modules.len() && 0 <= j < modules.len() && i != j ==> #[trigger] materialize_spec(
                BuildResultView::Multi { modules },
                output_dir,
                fallback_file_name,
            )[i].dest != #[trigger] materialize_spec(
                BuildResultView::Multi { modules },
                output_dir,
                fallback_file_name,
            )[j].dest,
{
    let plan = materialize_spec(BuildResultView::Multi { modules }, output_dir, fallback_file_name);
    assert forall|i: int, j: int|
        0 <= i < modules.len() && 0 <= j < modules.len() && i != j implies #[trigger] plan[i].dest
        != #[trigger] plan[j].dest by {
        let a = sanitize_spec(modules[i].entry_point);
        let b = sanitize_spec(modules[j].entry_point);
        assert forall|k: int| 0 <= k < a.len() implies #[trigger] a[k] != DOT by {
            assert(sanitize_spec(modules[i].entry_point)[k] != DOT);
        }
        assert forall|k: int| 0 <= k < b.len() implies #[trigger] b[k] != DOT by {
            assert(sanitize_spec(modules[j].entry_point)[k] != DOT);
        }
        lemma_dest_injective(output_dir, a, b);
    }
}

} // verus!
