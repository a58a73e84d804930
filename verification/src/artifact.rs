//! Pulled content and the rules it must meet.

use vstd::prelude::*;
use crate::error::FetchError;
use crate::text::{buffers, opt_text, same_text};

verus! {

/// Layer media type of a provider archive.
pub const PROVIDER_ARCHIVE_MEDIA_TYPE: &'static str =
    "application/vnd.wasmcloud.provider.archive.layer.v1+par";

/// Layer media type of module content.
pub const WASM_MEDIA_TYPE: &'static str = "application/vnd.module.wasm.content.layer.v1+wasm";

/// Layer media type of a generic image layer.
pub const OCI_MEDIA_TYPE: &'static str = "application/vnd.oci.image.layer.v1.tar";

/// The manifest media type that marks an artifact as a component.
pub open spec fn component_manifest_type() -> Seq<char> {
    "application/vnd.oci.image.manifest.v1+json"@
}

/// The layer media type of a component.
pub open spec fn component_layer_type() -> Seq<char> {
    "application/wasm"@
}

/// The manifest media type of component artifacts.
///
/// Trusted: states the value of the constant
/// `oci_wasm::WASM_MANIFEST_MEDIA_TYPE`.
#[verifier::external_body]
pub(crate) fn wasm_manifest_media_type() -> (media_type: &'static str)
    ensures
        media_type@ == component_manifest_type(),
{
    oci_wasm::WASM_MANIFEST_MEDIA_TYPE
}

/// The layer media type of component artifacts.
///
/// Trusted: states the value of the constant
/// `oci_wasm::WASM_LAYER_MEDIA_TYPE`.
#[verifier::external_body]
pub(crate) fn wasm_layer_media_type() -> (media_type: &'static str)
    ensures
        media_type@ == component_layer_type(),
{
    oci_wasm::WASM_LAYER_MEDIA_TYPE
}

/// The part of a manifest that a fetch looks at.
#[derive(Debug, Clone, PartialEq, Eq)]
pub struct Manifest {
    /// The media type that the manifest declares, if it declares one.
    pub media_type: Option<String>,
}

/// What a full pull returned.
#[derive(Debug, Clone, PartialEq, Eq)]
pub struct PulledArtifact {
    /// The manifest, if the registry served one.
    pub manifest: Option<Manifest>,
    /// The manifest digest, if one is known.
    pub digest: Option<String>,
    /// The content of each layer, in manifest order.
    pub layers: Vec<Vec<u8>>,
}

/// What a [`PulledArtifact`] holds, as sequences.
pub struct PulledArtifactView {
    /// `None` without a manifest; else the declared media type, if any.
    pub manifest: Option<Option<Seq<char>>>,
    pub digest: Option<Seq<char>>,
    pub layers: Seq<Seq<u8>>,
}

impl View for PulledArtifact {
    type V = PulledArtifactView;

    open spec fn view(&self) -> PulledArtifactView {
        PulledArtifactView {
            manifest: match self.manifest {
                Some(m) => Some(opt_text(m.media_type)),
                None => None,
            },
            digest: opt_text(self.digest),
            layers: buffers(self.layers@),
        }
    }
}

impl PulledArtifactView {
    /// Whether the manifest declares the component media type.
    pub open spec fn is_component(self) -> bool {
        self.manifest == Some(Some(component_manifest_type()))
    }

    /// Whether the artifact is one that a client must reject: a component
    /// that does not have exactly one layer.
    pub open spec fn is_malformed(self) -> bool {
        self.is_component() && self.layers.len() != 1
    }

    /// The artifact's content: its layers, one after the other.
    pub open spec fn content(self) -> Seq<u8> {
        self.layers.flatten()
    }
}

impl PulledArtifact {
    /// Tells whether the manifest declares the component media type.
    pub fn is_component(&self) -> (declared: bool)
        ensures
            declared == self@.is_component(),
    {
        match &self.manifest {
            Some(m) => match &m.media_type {
                Some(t) => same_text(t.as_str(), wasm_manifest_media_type()),
                None => false,
            },
            None => false,
        }
    }

    /// Checks the structural rule for components: exactly one layer, so
    /// that none and several are both refused, with the number that was
    /// found. Other artifacts pass whatever they hold.
    pub fn validate(&self) -> (checked: Result<(), FetchError>)
        ensures
            checked == if self@.is_malformed() {
                Err::<(), FetchError>(FetchError::Validation { layers: self.layers.len() })
            } else {
                Ok::<(), FetchError>(())
            },
    {
        if self.is_component() && self.layers.len() != 1 {
            Err(FetchError::Validation { layers: self.layers.len() })
        } else {
            Ok(())
        }
    }

    /// Assembles the content: the layers' bytes, concatenated in manifest
    /// order.
    pub fn content(&self) -> (bytes: Vec<u8>)
        ensures
            bytes@ == self@.content(),
    {
        let mut bytes: Vec<u8> = Vec::new();
        let mut i: usize = 0;
        while i < self.layers.len()
            invariant
                i <= self.layers.len(),
                bytes@ == buffers(self.layers@).take(i as int).flatten(),
            decreases self.layers.len() - i,
        {
            let layer = &self.layers[i];
            let mut j: usize = 0;
            let ghost before = bytes@;
            while j < layer.len()
                invariant
                    j <= layer.len(),
                    bytes@ == before + layer@.take(j as int),
                decreases layer.len() - j,
            {
                bytes.push(layer[j]);
                proof {
                    assert(layer@.take(j + 1) =~= layer@.take(j as int).push(layer@[j as int]));
                }
                j += 1;
            }
            proof {
                let all = buffers(self.layers@);
                assert(layer@.take(layer@.len() as int) =~= layer@);
                assert(all.take(i + 1) =~= all.take(i as int).push(layer@));
                all.take(i as int).lemma_flatten_push(layer@);
            }
            i += 1;
        }
        proof {
            let all = buffers(self.layers@);
            assert(all.take(all.len() as int) =~= all);
        }
        bytes
    }
}

/// The content of a component that passes validation is its one layer.
pub proof fn lemma_valid_component_is_its_layer(artifact: PulledArtifactView)
    requires
        artifact.is_component(),
        !artifact.is_malformed(),
    ensures
        artifact.layers.len() == 1,
        artifact.content() == artifact.layers[0],
{
    artifact.layers.lemma_flatten_singleton();
}

} // verus!
