//! Validated build configuration.
//!
//! A build request is constructed once, in one step, from already
//! validated inputs: the source path must decompose into a parent
//! directory and a file name, the metadata-verbosity token must be one of
//! the three known words, and every capability token must name a
//! capability.  After construction the request is read-only.

use vstd::prelude::*;

use crate::paths::{file_name_of, file_name_spec, parent_of, parent_spec};

verus! {

/// How much metadata the compiled modules keep.
#[derive(Clone, Copy, PartialEq, Eq, Structural, Debug)]
pub enum MetadataVerbosity {
    /// Keep none; named by the token `none`.
    Off,
    /// Keep all names and line information; named by the token `full`.
    Full,
    /// Name only interface variables; named by the token `name-variables`.
    NameVariables,
}

/// Why a build configuration was rejected.
#[derive(Clone, Copy, PartialEq, Eq, Structural, Debug)]
pub enum ConfigError {
    /// The source path has no parent directory to default the output to.
    PathHasNoParent,
    /// The source path has no file-name component.
    PathHasNoFileName,
    /// A metadata-verbosity token is none of `none`, `full`,
    /// `name-variables`.
    UnknownMetadataVerbosity,
    /// A capability token names no capability.
    UnknownCapability,
}

/// The bytes of the token `none`.
pub open spec fn token_none_spec() -> Seq<u8> {
    seq![110u8, 111u8, 110u8, 101u8]
}

/// The bytes of the token `full`.
pub open spec fn token_full_spec() -> Seq<u8> {
    seq![102u8, 117u8, 108u8, 108u8]
}

/// The bytes of the token `name-variables`.
pub open spec fn token_name_variables_spec() -> Seq<u8> {
    seq![
        110u8,
        97u8,
        109u8,
        101u8,
        45u8,
        118u8,
        97u8,
        114u8,
        105u8,
        97u8,
        98u8,
        108u8,
        101u8,
        115u8,
    ]
}

/// Whether `token` reads `none`.
fn is_token_none(token: &Vec<u8>) -> (r: bool)
    ensures
        r == (token@ == token_none_spec()),
{
    let r = token.len() == 4 && token[0] == 110 && token[1] == 111 && token[2] == 110 && token[3]
        == 101;
    proof {
        if r {
            assert(token@ =~= token_none_spec());
        }
    }
    r
}

/// Whether `token` reads `full`.
fn is_token_full(token: &Vec<u8>) -> (r: bool)
    ensures
        r == (token@ == token_full_spec()),
{
    let r = token.len() == 4 && token[0] == 102 && token[1] == 117 && token[2] == 108 && token[3]
        == 108;
    proof {
        if r {
            assert(token@ =~= token_full_spec());
        }
    }
    r
}

/// Whether `token` reads `name-variables`.
fn is_token_name_variables(token: &Vec<u8>) -> (r: bool)
    ensures
        r == (token@ == token_name_variables_spec()),
{
    let r = token.len() == 14 && token[0] == 110 && token[1] == 97 && token[2] == 109 && token[3]
        == 101 && token[4] == 45 && token[5] == 118 && token[6] == 97 && token[7] == 114
        && token[8] == 105 && token[9] == 97 && token[10] == 98 && token[11] == 108 && token[12]
        == 101 && token[13] == 115;
    proof {
        if r {
            assert(token@ =~= token_name_variables_spec());
        }
    }
    r
}

/// The three metadata tokens are three different words.
proof fn lemma_tokens_distinct()
    ensures
        token_none_spec() != token_full_spec(),
        token_none_spec() != token_name_variables_spec(),
        token_full_spec() != token_name_variables_spec(),
{
    assert(token_none_spec()[0] == 110 && token_full_spec()[0] == 102);
    assert(token_none_spec().len() == 4 && token_name_variables_spec().len() == 14);
    assert(token_full_spec().len() == 4);
}

/// Parses a metadata-verbosity token.  Exactly the tokens `none`, `full`
/// and `name-variables` are accepted, each naming its verbosity; every
/// other token is rejected.
pub fn parse_spirv_metadata(token: &Vec<u8>) -> (r: Result<MetadataVerbosity, ConfigError>)
    ensures
        r == Ok::<MetadataVerbosity, ConfigError>(MetadataVerbosity::Off) <==> token@
            == token_none_spec(),
        r == Ok::<MetadataVerbosity, ConfigError>(MetadataVerbosity::Full) <==> token@
            == token_full_spec(),
        r == Ok::<MetadataVerbosity, ConfigError>(MetadataVerbosity::NameVariables) <==> token@
            == token_name_variables_spec(),
        r is Err <==> (token@ != token_none_spec() && token@ != token_full_spec() && token@
            != token_name_variables_spec()),
        r is Err ==> r == Err::<MetadataVerbosity, ConfigError>(
            ConfigError::UnknownMetadataVerbosity,
        ),
{
    proof {
        lemma_tokens_distinct();
    }
    if is_token_none(token) {
        Ok(MetadataVerbosity::Off)
    } else if is_token_full(token) {
        Ok(MetadataVerbosity::Full)
    } else if is_token_name_variables(token) {
        Ok(MetadataVerbosity::NameVariables)
    } else {
        Err(ConfigError::UnknownMetadataVerbosity)
    }
}

/// An immutable build configuration, constructed in one step from
/// validated inputs.
#[derive(Debug)]
pub struct BuildRequest {
    /// The shader source path handed to the compiler.
    pub source_path: Vec<u8>,
    /// The target triple token.
    pub target: Vec<u8>,
    /// Optimize, unless a debug build was asked for.
    pub release: bool,
    /// One artifact per entry point instead of one combined module.
    pub multimodule: bool,
    /// How much metadata the compiled modules keep.
    pub metadata: MetadataVerbosity,
    /// The capabilities to enable.
    pub capabilities: Vec<spirv_builder::Capability>,
    /// The extension names to enable.
    pub extensions: Vec<Vec<u8>>,
    /// The directory the artifacts go to.
    pub output_dir: Vec<u8>,
    /// The file name used for single-module output: the source path's
    /// file-name component.
    pub fallback_file_name: Vec<u8>,
}

impl BuildRequest {
    /// Builds a request.  The output directory defaults to the source
    /// path's parent; a source path without a parent (when no output
    /// directory was given) or without a file name is a configuration
    /// error, reported as exactly that.
    pub fn new(
        source_path: Vec<u8>,
        target: Vec<u8>,
        debug: bool,
        multimodule: bool,
        metadata: MetadataVerbosity,
        capabilities: Vec<spirv_builder::Capability>,
        extensions: Vec<Vec<u8>>,
        output: Option<Vec<u8>>,
    ) -> (r: Result<BuildRequest, ConfigError>)
        ensures
            r == Err::<BuildRequest, ConfigError>(ConfigError::PathHasNoParent) <==> (output
                is None && parent_spec(source_path@) is None),
            r == Err::<BuildRequest, ConfigError>(ConfigError::PathHasNoFileName) <==> (!(output
                is None && parent_spec(source_path@) is None) && file_name_spec(source_path@)
                is None),
            r is Ok <==> (file_name_spec(source_path@) is Some && (output is Some || parent_spec(
                source_path@,
            ) is Some)),
            r is Ok ==> r->Ok_0.source_path == source_path,
            r is Ok ==> r->Ok_0.target == target,
            r is Ok ==> r->Ok_0.release == !debug,
            r is Ok ==> r->Ok_0.multimodule == multimodule,
            r is Ok ==> r->Ok_0.metadata == metadata,
            r is Ok ==> r->Ok_0.capabilities == capabilities,
            r is Ok ==> r->Ok_0.extensions == extensions,
            r is Ok ==> r->Ok_0.fallback_file_name@ == file_name_spec(source_path@).unwrap(),
            r is Ok ==> r->Ok_0.output_dir@ == (if output is Some {
                output.unwrap()@
            } else {
                parent_spec(source_path@).unwrap()
            }),
    {
        let output_dir: Vec<u8> = match output {
            Some(dir) => dir,
            None => match parent_of(&source_path) {
                Some(parent) => parent,
                None => { return Err(ConfigError::PathHasNoParent) },
            },
        };
        let fallback_file_name: Vec<u8> = match file_name_of(&source_path) {
            Some(name) => name,
            None => { return Err(ConfigError::PathHasNoFileName) },
        };
        Ok(
            BuildRequest {
                source_path,
                target,
                release: !debug,
                multimodule,
                metadata,
                capabilities,
                extensions,
                output_dir,
                fallback_file_name,
            },
        )
    }

    /// Whether the compiled modules keep their binding annotations: they
    /// do exactly when any metadata is kept.
    pub fn preserve_bindings(&self) -> (r: bool)
        ensures
            r == !(self.metadata is Off),
    {
        match self.metadata {
            MetadataVerbosity::Off => false,
            _ => true,
        }
    }
}

} // verus!
