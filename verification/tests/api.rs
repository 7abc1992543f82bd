use proteus::api::backups::{backup_repository_location, build_backup, CreateBackupRequest};
use proteus::api::error::ApiError;
use proteus::api::inventory::{
    configmap_item, deployment_item, filter_by_name, pod_item, resolve_kinds,
    secret_from_partial_meta, InventoryItem,
};
use proteus::api::namespaces::namespace_items;
use proteus::api::repositories::{self, resolve_encryption};
use proteus::api::resources;
use proteus::api::secrets::{decode_secret_data, decode_secret_raw_data, s3_credentials_secret, InlineS3Credentials};
use proteus::api::state::{metrics_text, ClusterSnapshot, Readiness};
use proteus::crd::meta::ObjectMeta;
use proteus::crd::repository::RepositoryBackend;

fn meta(name: &str, ns: &str) -> ObjectMeta {
    ObjectMeta::named(name.to_string(), ns.to_string())
}

#[test]
fn resolve_kinds_rejects_unknown() {
    let err = resolve_kinds(Some("StatefulSet"));
    assert!(
        matches!(err, Err(ref e) if e.message().contains("unsupported inventory kind")),
        "expected unsupported kind error, got {err:?}"
    );
}

#[test]
fn resolve_kinds_accepts_pvc_alias() {
    let kinds = resolve_kinds(Some("PVC"));
    assert_eq!(kinds.ok(), Some(vec!["PersistentVolumeClaim"]));
}

#[test]
fn resolve_kinds_defaults_to_all() {
    let all = vec!["Deployment", "Pod", "Service", "PersistentVolumeClaim", "ConfigMap", "Secret"];
    assert_eq!(resolve_kinds(None).ok(), Some(all.clone()));
    assert_eq!(resolve_kinds(Some(" all ")).ok(), Some(all.clone()));
    assert_eq!(resolve_kinds(Some("*")).ok(), Some(all.clone()));
    assert_eq!(resolve_kinds(Some("  ")).ok(), Some(all));
    assert_eq!(resolve_kinds(Some("configmap")).ok(), Some(vec!["ConfigMap"]));
}

#[test]
fn filter_by_name_is_case_insensitive() {
    let items = vec![
        InventoryItem { kind: "Pod".into(), name: "web-0".into(), namespace: "demo".into(), extra: None },
        InventoryItem { kind: "Pod".into(), name: "db-0".into(), namespace: "demo".into(), extra: None },
    ];
    let filtered = filter_by_name(items, Some("WEB"));
    assert_eq!(filtered.len(), 1);
    assert_eq!(filtered[0].name, "web-0");
}

#[test]
fn filter_by_name_blank_query_keeps_everything() {
    let items = vec![
        InventoryItem { kind: "Pod".into(), name: "a".into(), namespace: "n".into(), extra: None },
        InventoryItem { kind: "Pod".into(), name: "b".into(), namespace: "n".into(), extra: None },
    ];
    assert_eq!(filter_by_name(items.clone(), Some("  ")).len(), 2);
    assert_eq!(filter_by_name(items, None).len(), 2);
}

#[test]
fn secret_row_is_metadata_only() {
    let item = secret_from_partial_meta(&meta("db", "demo"));
    assert_eq!(item.kind, "Secret");
    assert_eq!(item.name, "db");
    assert_eq!(item.namespace, "demo");
    assert_eq!(item.extra, None);
}

#[test]
fn inventory_rows_describe_objects() {
    let d = deployment_item(&meta("web", "demo"), Some(2), None);
    assert_eq!(d.extra.as_deref(), Some("2/0 ready"));
    let p = pod_item(&meta("web-0", "demo"), None);
    assert_eq!(p.extra.as_deref(), Some("Unknown"));
    let c = configmap_item(&meta("cfg", "demo"), 3, 1);
    assert_eq!(c.extra.as_deref(), Some("4 keys"));
    let neg = deployment_item(&meta("x", "demo"), Some(-1), Some(3));
    assert_eq!(neg.extra.as_deref(), Some("-1/3 ready"));
}

#[test]
fn namespaces_are_sorted_by_name() {
    let items = namespace_items(vec![
        Some("kube-system".to_string()),
        None,
        Some("default".to_string()),
        Some("apps".to_string()),
    ]);
    let names: Vec<&str> = items.iter().map(|i| i.name.as_str()).collect();
    assert_eq!(names, vec!["apps", "default", "kube-system"]);
}

#[test]
fn readiness_requires_kube_and_crds() {
    assert!(!Readiness { kube_reachable: false, crds_ready: true }.is_ready());
    assert!(!Readiness { kube_reachable: true, crds_ready: false }.is_ready());
    assert!(Readiness { kube_reachable: true, crds_ready: true }.is_ready());
}

#[test]
fn api_error_status_codes() {
    assert_eq!(ApiError::BadRequest("x".into()).status_code(), 400);
    assert_eq!(ApiError::NotReady.status_code(), 503);
    assert_eq!(ApiError::Kubernetes("x".into()).status_code(), 502);
    assert_eq!(ApiError::Internal("x".into()).status_code(), 500);
    assert_eq!(ApiError::BadRequest("x".into()).message(), "bad request: x");
}

// First API revision.

#[test]
fn resources_rejects_missing_local_path() {
    let req = resources::CreateRepositoryRequest {
        name: "r1".into(),
        namespace: None,
        description: None,
        encryption_enabled: None,
        backend: resources::CreateRepositoryBackend::Local { path: None },
    };
    let err = resources::build_repository(&req).expect_err("path required");
    assert!(err.message().contains("backend.path"));
}

#[test]
fn resources_rejects_empty_s3_bucket() {
    let req = resources::CreateRepositoryRequest {
        name: "r1".into(),
        namespace: Some("proteus-system".into()),
        description: None,
        encryption_enabled: None,
        backend: resources::CreateRepositoryBackend::S3 {
            bucket: Some("  ".into()),
            prefix: None,
            endpoint: None,
            region: None,
            credentials_secret_ref: Some("s3-creds".into()),
            force_path_style: None,
        },
    };
    let err = resources::build_repository(&req).expect_err("bucket required");
    assert!(err.message().contains("backend.bucket"));
}

#[test]
fn rejects_missing_s3_credentials_secret_ref() {
    let req = resources::CreateRepositoryRequest {
        name: "r1".into(),
        namespace: None,
        description: None,
        encryption_enabled: None,
        backend: resources::CreateRepositoryBackend::S3 {
            bucket: Some("backups".into()),
            prefix: None,
            endpoint: Some("http://minio:9000".into()),
            region: Some("us-east-1".into()),
            credentials_secret_ref: None,
            force_path_style: Some(true),
        },
    };
    let err = resources::build_repository(&req).expect_err("secret required");
    assert!(err.message().contains("backend.credentialsSecretRef"));
}

#[test]
fn resources_builds_local_repo_with_default_namespace() {
    let req = resources::CreateRepositoryRequest {
        name: "local-1".into(),
        namespace: None,
        description: Some("dev".into()),
        encryption_enabled: Some(true),
        backend: resources::CreateRepositoryBackend::Local {
            path: Some("/var/lib/proteus/repo".into()),
        },
    };
    let (ns, repo) = resources::build_repository(&req).expect("valid");
    assert_eq!(ns, "proteus-system");
    assert_eq!(repo.metadata.name.as_deref(), Some("local-1"));
    assert_eq!(repo.metadata.namespace.as_deref(), Some("proteus-system"));
    assert!(repo.spec.encryption_enabled);
    assert!(matches!(
        repo.spec.backend,
        RepositoryBackend::Local(ref local) if local.path == "/var/lib/proteus/repo"
    ));
}

#[test]
fn builds_s3_repo() {
    let req = resources::CreateRepositoryRequest {
        name: "s3-1".into(),
        namespace: Some("demo".into()),
        description: None,
        encryption_enabled: None,
        backend: resources::CreateRepositoryBackend::S3 {
            bucket: Some("proteus".into()),
            prefix: Some("cas/".into()),
            endpoint: Some("http://minio.local:9000".into()),
            region: Some("us-east-1".into()),
            credentials_secret_ref: Some("minio-creds".into()),
            force_path_style: Some(true),
        },
    };
    let (ns, repo) = resources::build_repository(&req).expect("valid");
    assert_eq!(ns, "demo");
    assert!(matches!(
        repo.spec.backend,
        RepositoryBackend::S3(ref s3)
            if s3.bucket == "proteus"
                && s3.credentials_secret_ref == "minio-creds"
                && s3.force_path_style
    ));
}

#[test]
fn resources_s3_force_path_style_defaults_true_when_omitted() {
    let req = resources::CreateRepositoryRequest {
        name: "s3-default".into(),
        namespace: None,
        description: None,
        encryption_enabled: None,
        backend: resources::CreateRepositoryBackend::S3 {
            bucket: Some("proteus".into()),
            prefix: None,
            endpoint: Some("http://minio:9000".into()),
            region: None,
            credentials_secret_ref: Some("minio-creds".into()),
            force_path_style: None,
        },
    };
    let (_, repo) = resources::build_repository(&req).expect("valid");
    assert!(matches!(
        repo.spec.backend,
        RepositoryBackend::S3(ref s3) if s3.force_path_style
    ));
}

#[test]
fn resources_s3_force_path_style_false_when_explicit() {
    let req = resources::CreateRepositoryRequest {
        name: "s3-aws".into(),
        namespace: None,
        description: None,
        encryption_enabled: None,
        backend: resources::CreateRepositoryBackend::S3 {
            bucket: Some("proteus".into()),
            prefix: None,
            endpoint: None,
            region: Some("eu-west-1".into()),
            credentials_secret_ref: Some("aws-creds".into()),
            force_path_style: Some(false),
        },
    };
    let (_, repo) = resources::build_repository(&req).expect("valid");
    assert!(matches!(
        repo.spec.backend,
        RepositoryBackend::S3(ref s3) if !s3.force_path_style
    ));
}

#[test]
fn resources_patch_requires_a_change() {
    let req = resources::PatchRepositoryRequest {
        description: None,
        encryption_enabled: None,
        backend: None,
    };
    let err = resources::build_repository_patch(&req).expect_err("empty patch");
    assert_eq!(
        err,
        ApiError::BadRequest(
            "at least one of description, encryptionEnabled, or backend is required".into()
        )
    );
    let req = resources::PatchRepositoryRequest {
        description: Some("  ".into()),
        encryption_enabled: Some(true),
        backend: None,
    };
    let patch = resources::build_repository_patch(&req).expect("patch");
    assert_eq!(patch.description, Some(None));
    assert_eq!(patch.encryption_enabled, Some(true));
}

// Current API revision.

fn s3_backend(
    bucket: Option<&str>,
    credentials_secret_ref: Option<&str>,
    access_key_id: Option<&str>,
    secret_access_key: Option<&str>,
    force_path_style: Option<bool>,
) -> repositories::CreateRepositoryBackend {
    repositories::CreateRepositoryBackend::S3 {
        bucket: bucket.map(str::to_string),
        prefix: None,
        endpoint: None,
        region: None,
        credentials_secret_ref: credentials_secret_ref.map(str::to_string),
        access_key_id: access_key_id.map(str::to_string),
        secret_access_key: secret_access_key.map(str::to_string),
        force_path_style,
    }
}

fn request(
    name: &str,
    namespace: Option<&str>,
    backend: repositories::CreateRepositoryBackend,
) -> repositories::CreateRepositoryRequest {
    repositories::CreateRepositoryRequest {
        name: name.into(),
        namespace: namespace.map(str::to_string),
        description: None,
        encryption_enabled: None,
        encryption_secret_ref: None,
        backend,
    }
}

#[test]
fn repositories_rejects_missing_local_path() {
    let req = request("r1", None, repositories::CreateRepositoryBackend::Local { path: None });
    let err = repositories::build_repository(&req).expect_err("path required");
    assert!(err.message().contains("backend.path"));
}

#[test]
fn repositories_rejects_empty_s3_bucket() {
    let req = request(
        "r1",
        Some("proteus-system"),
        s3_backend(Some("  "), Some("s3-creds"), None, None, None),
    );
    let err = repositories::build_repository(&req).expect_err("bucket required");
    assert!(err.message().contains("backend.bucket"));
}

#[test]
fn rejects_missing_s3_credentials() {
    let req = request("r1", None, s3_backend(Some("backups"), None, None, None, Some(true)));
    let err = repositories::build_repository(&req).expect_err("credentials required");
    assert!(err.message().contains("accessKeyId"));
}

#[test]
fn rejects_partial_inline_s3_credentials() {
    let req = request("r1", None, s3_backend(Some("backups"), None, Some("AKIA"), None, None));
    let err = repositories::build_repository(&req).expect_err("both keys required");
    assert!(err.message().contains("must both be provided"));
}

#[test]
fn repositories_builds_local_repo_with_default_namespace() {
    let mut req = request(
        "local-1",
        None,
        repositories::CreateRepositoryBackend::Local { path: Some("/var/lib/proteus/repo".into()) },
    );
    req.description = Some("dev".into());
    req.encryption_enabled = Some(true);
    let prepared = repositories::build_repository(&req).expect("valid");
    assert_eq!(prepared.namespace, "proteus-system");
    assert_eq!(prepared.repo.metadata.name.as_deref(), Some("local-1"));
    assert_eq!(prepared.repo.metadata.namespace.as_deref(), Some("proteus-system"));
    assert!(prepared.repo.spec.encryption_enabled);
    assert!(prepared.inline_s3_credentials.is_none());
    assert!(matches!(
        prepared.repo.spec.backend,
        RepositoryBackend::Local(ref local) if local.path == "/var/lib/proteus/repo"
    ));
}

#[test]
fn builds_s3_repo_from_existing_secret_ref() {
    let req = request(
        "s3-1",
        Some("demo"),
        repositories::CreateRepositoryBackend::S3 {
            bucket: Some("proteus".into()),
            prefix: Some("cas/".into()),
            endpoint: Some("http://minio.local:9000".into()),
            region: Some("us-east-1".into()),
            credentials_secret_ref: Some("minio-creds".into()),
            access_key_id: None,
            secret_access_key: None,
            force_path_style: Some(true),
        },
    );
    let prepared = repositories::build_repository(&req).expect("valid");
    assert_eq!(prepared.namespace, "demo");
    assert!(prepared.inline_s3_credentials.is_none());
    assert!(matches!(
        prepared.repo.spec.backend,
        RepositoryBackend::S3(ref s3)
            if s3.bucket == "proteus"
                && s3.credentials_secret_ref == "minio-creds"
                && s3.force_path_style
    ));
}

#[test]
fn builds_s3_repo_from_inline_keys_with_default_secret_name() {
    let req = request(
        "scw-repo",
        Some("default"),
        s3_backend(Some("my-bucket"), None, Some("SCWXXXX"), Some("secret-value"), Some(true)),
    );
    let prepared = repositories::build_repository(&req).expect("valid");
    let inline = prepared.inline_s3_credentials.expect("inline creds");
    assert_eq!(inline.secret_name, "scw-repo-s3-creds");
    assert_eq!(inline.access_key_id, "SCWXXXX");
    assert!(matches!(
        prepared.repo.spec.backend,
        RepositoryBackend::S3(ref s3) if s3.credentials_secret_ref == "scw-repo-s3-creds"
    ));
}

#[test]
fn repositories_s3_force_path_style_defaults_true_when_omitted() {
    let req = request(
        "s3-default",
        None,
        s3_backend(Some("proteus"), Some("minio-creds"), None, None, None),
    );
    let prepared = repositories::build_repository(&req).expect("valid");
    assert!(matches!(
        prepared.repo.spec.backend,
        RepositoryBackend::S3(ref s3) if s3.force_path_style
    ));
}

#[test]
fn resolve_encryption_generates_key_when_enabled_without_ref() {
    let (enabled, secret_ref, inline) = resolve_encryption("repo-1", true, None);
    assert!(enabled);
    assert_eq!(secret_ref.as_deref(), Some("repo-1-encryption"));
    let inline = inline.expect("generated key");
    assert_eq!(inline.secret_name, "repo-1-encryption");
    assert!(!inline.key_base64.is_empty());
}

#[test]
fn resolve_encryption_reuses_provided_ref_without_generating() {
    let (enabled, secret_ref, inline) = resolve_encryption("repo-1", true, Some("existing-key"));
    assert!(enabled);
    assert_eq!(secret_ref.as_deref(), Some("existing-key"));
    assert!(inline.is_none());
}

#[test]
fn resolve_encryption_disabled_ignores_ref() {
    let (enabled, secret_ref, inline) = resolve_encryption("repo-1", false, Some("ignored"));
    assert!(!enabled);
    assert!(secret_ref.is_none());
    assert!(inline.is_none());
}

#[test]
fn repositories_s3_force_path_style_false_when_explicit() {
    let req = request(
        "s3-aws",
        None,
        s3_backend(Some("proteus"), Some("aws-creds"), None, None, Some(false)),
    );
    let prepared = repositories::build_repository(&req).expect("valid");
    assert!(matches!(
        prepared.repo.spec.backend,
        RepositoryBackend::S3(ref s3) if !s3.force_path_style
    ));
}

#[test]
fn generated_key_is_44_base64_chars() {
    let (_, _, inline) = resolve_encryption("r", true, Some("   "));
    let key = inline.expect("generated").key_base64;
    assert_eq!(key.len(), 44);
    assert!(key.ends_with('='));
}

#[test]
fn credentials_secret_is_managed_and_owned() {
    let creds = InlineS3Credentials {
        secret_name: "s".into(),
        access_key_id: "AK".into(),
        secret_access_key: "SK".into(),
    };
    let secret = s3_credentials_secret("ns", &creds, None);
    assert_eq!(secret.labels, vec![("proteus.io/managed-credentials".to_string(), "true".to_string())]);
    assert!(secret.owner_references.is_none());
    assert_eq!(secret.string_data[0], ("accessKeyId".to_string(), "AK".to_string()));
    assert_eq!(secret.secret_type, "Opaque");
}

#[test]
fn secret_data_prefers_string_data() {
    let data = vec![
        ("a".to_string(), vec![0xffu8, 0x00]),
        ("b".to_string(), b"plain".to_vec()),
    ];
    let string_data = vec![("a".to_string(), "text".to_string())];
    let raw = decode_secret_raw_data(Some(&data), Some(&string_data));
    assert_eq!(raw.len(), 2);
    assert!(raw.contains(&("a".to_string(), b"text".to_vec())));
    assert!(raw.contains(&("b".to_string(), b"plain".to_vec())));
    let binary = vec![("k".to_string(), vec![0xffu8])];
    let text = decode_secret_data(Some(&binary), None);
    assert!(text.is_empty());
    let text = decode_secret_data(Some(&data), None);
    assert_eq!(text, vec![("b".to_string(), "plain".to_string())]);
}

#[test]
fn build_backup_rejects_empty_pvc_names() {
    let req = CreateBackupRequest {
        name: "b1".into(),
        namespace: None,
        repository_ref: "repo-1".into(),
        repository_namespace: None,
        target_namespace: "workloads".into(),
        pvc_names: vec![],
    };
    let err = build_backup(&req).expect_err("pvcNames required");
    assert!(err.message().contains("pvcNames"));
}

#[test]
fn build_backup_rejects_blank_pvc_names() {
    let req = CreateBackupRequest {
        name: "b1".into(),
        namespace: None,
        repository_ref: "repo-1".into(),
        repository_namespace: None,
        target_namespace: "workloads".into(),
        pvc_names: vec!["  ".into()],
    };
    let err = build_backup(&req).expect_err("blank pvc name filtered out");
    assert!(err.message().contains("pvcNames"));
}

#[test]
fn build_backup_defaults_namespace_to_target_namespace() {
    let req = CreateBackupRequest {
        name: "b1".into(),
        namespace: None,
        repository_ref: "repo-1".into(),
        repository_namespace: None,
        target_namespace: "workloads".into(),
        pvc_names: vec!["data-pvc".into()],
    };
    let (namespace, backup) = build_backup(&req).expect("valid");
    assert_eq!(namespace, "workloads");
    assert_eq!(backup.metadata.namespace.as_deref(), Some("workloads"));
    assert_eq!(backup.spec.pvc_names, vec!["data-pvc".to_string()]);
}

#[test]
fn build_backup_honours_explicit_namespace() {
    let req = CreateBackupRequest {
        name: "b1".into(),
        namespace: Some("proteus-system".into()),
        repository_ref: "repo-1".into(),
        repository_namespace: Some("proteus-system".into()),
        target_namespace: "workloads".into(),
        pvc_names: vec!["data-pvc".into(), "logs-pvc".into()],
    };
    let (namespace, backup) = build_backup(&req).expect("valid");
    assert_eq!(namespace, "proteus-system");
    assert_eq!(backup.spec.target_namespace, "workloads");
    assert_eq!(backup.spec.pvc_names.len(), 2);
    let (repo_ns, repo_ref) = backup_repository_location(&backup, "elsewhere");
    assert_eq!(repo_ns, "proteus-system");
    assert_eq!(repo_ref, "repo-1");
}

#[test]
fn metrics_expose_resource_counts() {
    let snap = ClusterSnapshot {
        version: "0.1.0".to_string(),
        repositories: 2,
        backups: 10,
        restores: 0,
        last_reconcile_at: None,
    };
    let text = metrics_text(&snap);
    assert!(text.starts_with("# HELP proteus_repositories Number of ProteusRepository objects\n"));
    assert!(text.contains("\nproteus_repositories 2\n"));
    assert!(text.contains("\nproteus_backups 10\n"));
    assert!(text.ends_with("# TYPE proteus_restores gauge\nproteus_restores 0\n"));
    assert_eq!(text.lines().count(), 9);
}
