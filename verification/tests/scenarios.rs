use std::collections::HashMap;

use wasmcloud_oci::artifact::{Manifest, PulledArtifact};
use wasmcloud_oci::error::FetchError;
use wasmcloud_oci::fetcher::{OciArtifactCacheUpdate, OciFetcher, RegistryAuth, RegistryConfig};
use wasmcloud_oci::session::{FetchAction, FetchEvent, FetchSession};

/// A registry and a cache directory in memory, with a count of the requests
/// that reached the registry.
struct Surroundings {
    manifest: Option<String>,
    artifact: Option<PulledArtifact>,
    certificates: Option<Vec<Vec<u8>>>,
    files: HashMap<String, Vec<u8>>,
    writable: bool,
    manifest_fetches: usize,
    pulls: usize,
    actions: Vec<FetchAction>,
}

impl Surroundings {
    fn serving(artifact: PulledArtifact) -> Surroundings {
        Surroundings {
            manifest: artifact.digest.clone(),
            artifact: Some(artifact),
            certificates: Some(vec![]),
            files: HashMap::new(),
            writable: true,
            manifest_fetches: 0,
            pulls: 0,
            actions: vec![],
        }
    }

    fn unreachable() -> Surroundings {
        Surroundings {
            manifest: None,
            artifact: None,
            certificates: Some(vec![]),
            files: HashMap::new(),
            writable: true,
            manifest_fetches: 0,
            pulls: 0,
            actions: vec![],
        }
    }

    fn run(&mut self, mut session: FetchSession) -> Option<Result<String, FetchError>> {
        for _ in 0..16 {
            let action = session.action();
            self.actions.push(action);
            let event = match action {
                FetchAction::LoadCertificates => {
                    FetchEvent::Certificates(self.certificates.clone())
                }
                FetchAction::ProbeCache => FetchEvent::CacheProbed(
                    self.files.contains_key(&session.request().entry.cache_file),
                ),
                FetchAction::FetchManifest => {
                    self.manifest_fetches += 1;
                    FetchEvent::Manifest(self.manifest.clone())
                }
                FetchAction::ReadDigest => FetchEvent::StoredDigest(
                    self.files
                        .get(&session.request().entry.digest_file)
                        .and_then(|bytes| String::from_utf8(bytes.clone()).ok())
                        .unwrap_or_default(),
                ),
                FetchAction::Pull => {
                    self.pulls += 1;
                    FetchEvent::Pulled(self.artifact.clone())
                }
                FetchAction::WriteCache => {
                    if self.writable {
                        let entry = session.request().entry.clone();
                        let (content, digest) = session.pending_write().unwrap();
                        self.files.insert(entry.cache_file, content.clone());
                        if let Some(digest) = digest {
                            self.files.insert(entry.digest_file, digest.clone().into_bytes());
                        }
                    }
                    FetchEvent::Written(self.writable)
                }
                FetchAction::Finish => return session.outcome(),
            };
            session = session.advance(event);
        }
        None
    }
}

fn component(layers: Vec<Vec<u8>>, digest: &str) -> PulledArtifact {
    PulledArtifact {
        manifest: Some(Manifest {
            media_type: Some(oci_wasm::WASM_MANIFEST_MEDIA_TYPE.to_string()),
        }),
        digest: Some(digest.to_string()),
        layers,
    }
}

const WIDGET: &str = "registry.example.com/acme/widget:v1";
const WIDGET_FILE: &str = "/cache/registry_example_com_acme_widget_v1";
const WIDGET_DIGEST_FILE: &str = "/cache/registry_example_com_acme_widget_v1.digest";

#[test]
fn latest_is_refused_before_any_network_call() {
    let fetcher = OciFetcher::from(RegistryConfig {
        auth: RegistryAuth::Anonymous,
        allow_latest: false,
        allow_insecure: false,
        additional_ca_paths: vec![],
    });
    let started = fetcher.fetch_component("/cache", "registry.example.com/acme/widget:latest");
    // No session exists, so there is nothing that could ask for a request.
    assert_eq!(started.unwrap_err(), FetchError::PolicyViolation);
}

#[test]
fn first_fetch_pulls_and_second_fetch_hits_the_cache() {
    let fetcher = OciFetcher::default();
    let mut world = Surroundings::serving(component(vec![vec![0, 97, 115, 109, 1]], "sha256:abc"));

    let first = world.run(fetcher.fetch_component("/cache", WIDGET).unwrap());
    assert_eq!(first, Some(Ok(WIDGET_FILE.to_string())));
    assert_eq!(world.pulls, 1);
    assert_eq!(world.manifest_fetches, 0);
    assert_eq!(world.files.get(WIDGET_FILE), Some(&vec![0, 97, 115, 109, 1]));
    assert_eq!(world.files.get(WIDGET_DIGEST_FILE), Some(&b"sha256:abc".to_vec()));
    assert_eq!(world.files.len(), 2);
    assert_eq!(
        world.actions,
        vec![
            FetchAction::ProbeCache,
            FetchAction::Pull,
            FetchAction::WriteCache,
            FetchAction::Finish
        ]
    );

    world.actions.clear();
    let second = world.run(fetcher.fetch_component("/cache", WIDGET).unwrap());
    assert_eq!(second, first);
    assert_eq!(world.pulls, 1);
    assert_eq!(world.manifest_fetches, 1);
    assert_eq!(world.files.len(), 2);
    assert_eq!(
        world.actions,
        vec![
            FetchAction::ProbeCache,
            FetchAction::FetchManifest,
            FetchAction::ReadDigest,
            FetchAction::Finish
        ]
    );
}

#[test]
fn changed_digest_is_pulled_again() {
    let fetcher = OciFetcher::default();
    let mut world = Surroundings::serving(component(vec![vec![1, 1]], "sha256:abc"));
    world.run(fetcher.fetch_component("/cache", WIDGET).unwrap());

    world.artifact = Some(component(vec![vec![2, 2, 2]], "sha256:def"));
    world.manifest = Some("sha256:def".to_string());
    let refreshed = world.run(fetcher.fetch_component("/cache", WIDGET).unwrap());
    assert_eq!(refreshed, Some(Ok(WIDGET_FILE.to_string())));
    assert_eq!(world.pulls, 2);
    assert_eq!(world.files.get(WIDGET_FILE), Some(&vec![2, 2, 2]));
    assert_eq!(world.files.get(WIDGET_DIGEST_FILE), Some(&b"sha256:def".to_vec()));
}

#[test]
fn missing_digest_file_degrades_to_a_miss() {
    let fetcher = OciFetcher::default();
    let mut world = Surroundings::serving(component(vec![vec![1]], "sha256:abc"));
    world.files.insert(WIDGET_FILE.to_string(), vec![9, 9]);
    let outcome = world.run(fetcher.fetch_component("/cache", WIDGET).unwrap());
    assert_eq!(outcome, Some(Ok(WIDGET_FILE.to_string())));
    assert_eq!(world.manifest_fetches, 1);
    assert_eq!(world.pulls, 1);
    assert_eq!(world.files.get(WIDGET_FILE), Some(&vec![1]));
}

#[test]
fn unreadable_digest_file_degrades_to_a_miss() {
    let fetcher = OciFetcher::default();
    let mut world = Surroundings::serving(component(vec![vec![1]], "sha256:abc"));
    world.files.insert(WIDGET_FILE.to_string(), vec![9, 9]);
    world.files.insert(WIDGET_DIGEST_FILE.to_string(), vec![0xff, 0xfe]);
    let outcome = world.run(fetcher.fetch_component("/cache", WIDGET).unwrap());
    assert_eq!(outcome, Some(Ok(WIDGET_FILE.to_string())));
    assert_eq!(world.pulls, 1);
    assert_eq!(world.files.get(WIDGET_DIGEST_FILE), Some(&b"sha256:abc".to_vec()));
}

#[test]
fn cached_bytes_are_the_layers_in_order() {
    let fetcher = OciFetcher::default();
    let layers = vec![vec![10, 11], vec![], vec![12], vec![13, 14, 15]];
    let artifact = PulledArtifact {
        manifest: Some(Manifest { media_type: Some("application/vnd.example+json".to_string()) }),
        digest: Some("sha256:abc".to_string()),
        layers: layers.clone(),
    };
    let mut world = Surroundings::serving(artifact);
    let outcome = world.run(fetcher.fetch_provider("/cache", WIDGET).unwrap());
    let path = outcome.unwrap().unwrap();
    assert_eq!(world.files.get(&path), Some(&layers.concat()));
    assert_eq!(world.files.get(&path), Some(&vec![10, 11, 12, 13, 14, 15]));
}

#[test]
fn malformed_component_leaves_the_cache_alone() {
    let fetcher = OciFetcher::default();
    let mut world = Surroundings::serving(component(vec![vec![1], vec![2]], "sha256:abc"));
    let outcome = world.run(fetcher.fetch_component("/cache", WIDGET).unwrap());
    assert_eq!(outcome, Some(Err(FetchError::Validation { layers: 2 })));
    assert!(world.files.is_empty());
    assert_eq!(world.pulls, 1);
}

#[test]
fn component_without_layers_leaves_the_cache_alone() {
    let fetcher = OciFetcher::default();
    let mut world = Surroundings::serving(component(vec![], "sha256:abc"));
    let outcome = world.run(fetcher.fetch_component("/cache", WIDGET).unwrap());
    assert_eq!(outcome, Some(Err(FetchError::Validation { layers: 0 })));
    assert!(world.files.is_empty());
    assert_eq!(world.pulls, 1);
}

#[test]
fn fetched_component_is_its_one_layer() {
    let fetcher = OciFetcher::default();
    let mut world = Surroundings::serving(component(vec![vec![0, 97, 115, 109]], "sha256:abc"));
    let path = world.run(fetcher.fetch_component("/cache", WIDGET).unwrap()).unwrap().unwrap();
    assert_eq!(world.files.get(&path), Some(&vec![0, 97, 115, 109]));
}

#[test]
fn unreachable_registry_fails_the_pull() {
    let fetcher = OciFetcher::default();
    let mut world = Surroundings::unreachable();
    let outcome = world.run(fetcher.fetch_component("/cache", WIDGET).unwrap());
    assert_eq!(outcome, Some(Err(FetchError::Pull)));
    assert!(world.files.is_empty());
}

#[test]
fn unreachable_registry_fails_the_freshness_check() {
    let fetcher = OciFetcher::default();
    let mut world = Surroundings::unreachable();
    world.files.insert(WIDGET_FILE.to_string(), vec![1]);
    world.files.insert(WIDGET_DIGEST_FILE.to_string(), b"sha256:abc".to_vec());
    let outcome = world.run(fetcher.fetch_component("/cache", WIDGET).unwrap());
    assert_eq!(outcome, Some(Err(FetchError::ManifestFetch)));
    assert_eq!(world.pulls, 0);
    assert_eq!(world.files.get(WIDGET_FILE), Some(&vec![1]));
}

#[test]
fn unwritable_cache_fails_the_fetch() {
    let fetcher = OciFetcher::default();
    let mut world = Surroundings::serving(component(vec![vec![1]], "sha256:abc"));
    world.writable = false;
    let outcome = world.run(fetcher.fetch_component("/cache", WIDGET).unwrap());
    assert_eq!(outcome, Some(Err(FetchError::CacheIo)));
}

#[test]
fn bad_certificates_stop_the_fetch_before_the_registry_is_asked() {
    let fetcher = OciFetcher::default().with_additional_ca_paths(&["/etc/ca/bad.pem".to_string()]);
    let mut world = Surroundings::serving(component(vec![vec![1]], "sha256:abc"));
    world.certificates = None;
    let outcome = world.run(fetcher.fetch_component("/cache", WIDGET).unwrap());
    assert_eq!(outcome, Some(Err(FetchError::CertLoad)));
    assert_eq!(world.pulls, 0);
    assert_eq!(world.manifest_fetches, 0);
    assert_eq!(world.actions, vec![FetchAction::LoadCertificates, FetchAction::Finish]);
}

#[test]
fn ignoring_the_cache_pulls_every_time() {
    let fetcher = OciFetcher::default();
    let mut world = Surroundings::serving(component(vec![vec![1]], "sha256:abc"));
    for pulls in 1..=2 {
        let session = fetcher
            .fetch_path("/cache", WIDGET, vec![], OciArtifactCacheUpdate::Ignore)
            .unwrap();
        assert_eq!(world.run(session), Some(Ok(WIDGET_FILE.to_string())));
        assert_eq!(world.pulls, pulls);
        assert!(world.files.is_empty());
    }
}

#[test]
fn every_fetch_ends_within_six_actions() {
    let fetcher = OciFetcher::default().with_additional_ca_paths(&["/etc/ca/one.pem".to_string()]);
    let mut world = Surroundings::serving(component(vec![vec![1]], "sha256:new"));
    world.files.insert(WIDGET_FILE.to_string(), vec![0]);
    world.files.insert(WIDGET_DIGEST_FILE.to_string(), b"sha256:old".to_vec());
    let outcome = world.run(fetcher.fetch_component("/cache", WIDGET).unwrap());
    assert_eq!(outcome, Some(Ok(WIDGET_FILE.to_string())));
    assert_eq!(
        world.actions,
        vec![
            FetchAction::LoadCertificates,
            FetchAction::ProbeCache,
            FetchAction::FetchManifest,
            FetchAction::ReadDigest,
            FetchAction::Pull,
            FetchAction::WriteCache,
            FetchAction::Finish
        ]
    );
}
