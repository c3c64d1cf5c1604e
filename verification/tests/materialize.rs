use spirv_out::materialize::{materialize_plan, BuildResult, ModuleArtifact};
use spirv_out::paths::parent_of;

#[test]
fn single_module_goes_to_source_parent_under_spv_name() {
    // Single-module build of /proj/shaders/main.rs with no explicit output
    // directory: the output defaults to the source's parent and the file
    // is named after the source, with the artifact extension.
    let source_path = b"/proj/shaders/main.rs".to_vec();
    let output_dir = parent_of(&source_path).unwrap();
    let result = BuildResult::Single { artifact: b"/tmp/build/out.bin".to_vec() };
    let plan = materialize_plan(&result, &output_dir, &b"main.rs".to_vec());
    assert_eq!(plan.len(), 1);
    assert_eq!(plan[0].source, b"/tmp/build/out.bin".to_vec());
    assert_eq!(plan[0].dest, b"/proj/shaders/main.spv".to_vec());
}

#[test]
fn multi_module_names_each_file_after_its_entry_point() {
    let result = BuildResult::Multi {
        modules: vec![
            ModuleArtifact {
                entry_point: b"pkg::vertex_main".to_vec(),
                artifact: b"/tmp/a".to_vec(),
            },
            ModuleArtifact {
                entry_point: b"pkg::fragment_main".to_vec(),
                artifact: b"/tmp/b".to_vec(),
            },
        ],
    };
    let plan = materialize_plan(&result, &b"/out".to_vec(), &b"main.rs".to_vec());
    assert_eq!(plan.len(), 2);
    assert_eq!(plan[0].source, b"/tmp/a".to_vec());
    assert_eq!(plan[0].dest, b"/out/pkg_vertex_main.spv".to_vec());
    assert_eq!(plan[1].source, b"/tmp/b".to_vec());
    assert_eq!(plan[1].dest, b"/out/pkg_fragment_main.spv".to_vec());
}

#[test]
fn entry_point_without_separator_keeps_its_name() {
    let result = BuildResult::Multi {
        modules: vec![
            ModuleArtifact { entry_point: b"compute".to_vec(), artifact: b"/tmp/c".to_vec() },
        ],
    };
    let plan = materialize_plan(&result, &b"/out".to_vec(), &b"main.rs".to_vec());
    assert_eq!(plan.len(), 1);
    assert_eq!(plan[0].dest, b"/out/compute.spv".to_vec());
}

#[test]
fn planning_twice_gives_the_same_plan() {
    let result = BuildResult::Multi {
        modules: vec![
            ModuleArtifact {
                entry_point: b"pkg::vertex_main".to_vec(),
                artifact: b"/tmp/a".to_vec(),
            },
            ModuleArtifact { entry_point: b"compute".to_vec(), artifact: b"/tmp/b".to_vec() },
        ],
    };
    let dir = b"/out".to_vec();
    let fallback = b"main.rs".to_vec();
    let first = materialize_plan(&result, &dir, &fallback);
    let second = materialize_plan(&result, &dir, &fallback);
    assert_eq!(first.len(), second.len());
    for (a, b) in first.iter().zip(second.iter()) {
        assert_eq!(a.source, b.source);
        assert_eq!(a.dest, b.dest);
    }
}

#[test]
fn fallback_name_is_ignored_for_multi_module_results() {
    let result = BuildResult::Multi {
        modules: vec![
            ModuleArtifact { entry_point: b"compute".to_vec(), artifact: b"/tmp/c".to_vec() },
        ],
    };
    let plan_one = materialize_plan(&result, &b"/out".to_vec(), &b"one.rs".to_vec());
    let plan_two = materialize_plan(&result, &b"/out".to_vec(), &b"two.rs".to_vec());
    assert_eq!(plan_one[0].dest, plan_two[0].dest);
}
