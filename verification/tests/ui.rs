use proteus::ui::api::{check_status, CreateRepositoryBackend, RepositoryListItem};
use proteus::ui::pages::{
    combobox_display, combobox_option_class, combobox_step, filter_namespace_options,
    inventory_request, kind_options, namespace_options, needs_poll, phase_badge_class,
    repository_request_from_form, text_or_dash, BackendKind, ComboboxEvent, ComboboxState,
    RepositoryForm,
};

fn row(phase: Option<&str>) -> RepositoryListItem {
    RepositoryListItem {
        name: "r".into(),
        namespace: "n".into(),
        phase: phase.map(str::to_string),
        backend: None,
        message: None,
    }
}

#[test]
fn polls_while_repositories_reconcile() {
    assert!(needs_poll(&vec![row(Some("Ready")), row(None)]));
    assert!(needs_poll(&vec![row(Some("Pending"))]));
    assert!(!needs_poll(&vec![row(Some("Ready")), row(Some("Failed"))]));
}

#[test]
fn namespace_options_sorted_unique_with_default() {
    let names = vec!["b".to_string(), "a".to_string(), "b".to_string()];
    assert_eq!(namespace_options(&names, false), vec!["a".to_string(), "b".to_string()]);
    assert_eq!(
        namespace_options(&names, true),
        vec!["proteus-system".to_string(), "a".to_string(), "b".to_string()]
    );
    let with_default = vec!["zeta".to_string(), "proteus-system".to_string()];
    assert_eq!(
        namespace_options(&with_default, true),
        vec!["proteus-system".to_string(), "zeta".to_string()]
    );
}

#[test]
fn namespace_filter_is_case_insensitive() {
    let options = vec!["Apps".to_string(), "kube-system".to_string()];
    assert_eq!(filter_namespace_options(&options, "APP"), vec!["Apps".to_string()]);
    assert_eq!(filter_namespace_options(&options, "").len(), 2);
}

#[test]
fn repository_form_validation() {
    let mut form = RepositoryForm {
        backend_kind: BackendKind::S3,
        name: " repo ".into(),
        namespace: "proteus-system".into(),
        description: "  ".into(),
        local_path: String::new(),
        bucket: "bk".into(),
        endpoint: String::new(),
        region: "us-east-1".into(),
        prefix: String::new(),
        credentials_secret_ref: String::new(),
        force_path_style: true,
    };
    assert_eq!(
        repository_request_from_form(&form),
        Err("backend.credentialsSecretRef is required".to_string())
    );
    form.credentials_secret_ref = "creds".into();
    let req = repository_request_from_form(&form).expect("valid");
    assert_eq!(req.name, "repo");
    assert_eq!(req.description, None);
    assert!(matches!(
        req.backend,
        CreateRepositoryBackend::S3 { ref region, ref endpoint, .. }
            if region.as_deref() == Some("us-east-1") && endpoint.is_none()
    ));
}

#[test]
fn non_success_status_is_an_error() {
    assert!(check_status(204, "").is_ok());
    assert_eq!(check_status(404, "nope").unwrap_err().message, "HTTP 404: nope");
}

#[test]
fn repository_form_starts_local_under_default_namespace() {
    let f = RepositoryForm::default();
    assert_eq!(f.backend_kind, BackendKind::Local);
    assert_eq!(f.namespace, "proteus-system");
    assert_eq!(f.local_path, "/var/lib/proteus/repo");
    assert_eq!(f.region, "us-east-1");
    assert!(f.force_path_style);
    assert!(f.name.is_empty() && f.bucket.is_empty() && f.credentials_secret_ref.is_empty());
    // A fresh form only lacks a name.
    assert_eq!(repository_request_from_form(&f).unwrap_err(), "name is required");
}

#[test]
fn table_cells_and_badges() {
    assert_eq!(text_or_dash(&Some("s3".to_string())), "s3");
    assert_eq!(text_or_dash(&None), "\u{2014}");
    assert_eq!(phase_badge_class(Some("Ready")), "badge phase-ready");
    assert_eq!(phase_badge_class(Some("Failed")), "badge phase-failed");
    assert_eq!(phase_badge_class(Some("Pending")), "badge");
    assert_eq!(phase_badge_class(None), "badge");
}

#[test]
fn inventory_filters_to_request() {
    let kinds = kind_options();
    assert_eq!(kinds.len(), 7);
    assert_eq!(kinds[0], ("All", "All kinds"));
    assert_eq!(kinds[4], ("PersistentVolumeClaim", "PVCs"));
    let q = inventory_request("", "All", "");
    assert_eq!(q.namespace, None);
    assert_eq!(q.kind.as_deref(), Some("All"));
    assert_eq!(q.q, None);
    let q = inventory_request("apps", "Pod", "web");
    assert_eq!(q.namespace.as_deref(), Some("apps"));
    assert_eq!(q.q.as_deref(), Some("web"));
}

#[test]
fn namespace_picker_state_machine() {
    let options = vec!["default".to_string(), "kube-system".to_string(), "proteus-system".to_string()];
    let s = ComboboxState::new();
    assert_eq!(combobox_display(&s), "");
    let s = combobox_step(s, ComboboxEvent::Focus, &options);
    assert!(s.open);
    let s = combobox_step(s, ComboboxEvent::Input("PROT".to_string()), &options);
    assert_eq!(combobox_display(&s), "PROT");
    let s = combobox_step(s, ComboboxEvent::Enter, &options);
    assert!(!s.open);
    assert_eq!(s.selected, "proteus-system");
    assert_eq!(combobox_display(&s), "proteus-system");
    assert_eq!(combobox_option_class(&s.selected, "proteus-system"), "combobox-option active");
    assert_eq!(combobox_option_class(&s.selected, "default"), "combobox-option");
    // Enter with nothing matching changes nothing.
    let s = combobox_step(s, ComboboxEvent::Input("zzz".to_string()), &options);
    let s = combobox_step(s, ComboboxEvent::Enter, &options);
    assert!(s.open);
    assert_eq!(s.selected, "proteus-system");
    let s = combobox_step(s, ComboboxEvent::Escape, &options);
    assert!(!s.open && s.draft.is_empty());
    let s = combobox_step(s, ComboboxEvent::Pick("default".to_string()), &options);
    assert_eq!(s.selected, "default");
    // A name that is not offered is never committed.
    let s = combobox_step(s, ComboboxEvent::Focus, &options);
    let s = combobox_step(s, ComboboxEvent::Pick("zz".to_string()), &options);
    assert!(s.open);
    assert_eq!(s.selected, "default");
    let s = combobox_step(s, ComboboxEvent::Escape, &options);
    let s = combobox_step(s, ComboboxEvent::Clear, &options);
    assert_eq!(s.selected, "");
    assert_eq!(combobox_display(&s), "");
}
