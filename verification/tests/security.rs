use zotero::security::{SecurityConfig, SecurityEnv, SecurityProfile};
use zotero::errors::ZoteroApiError;

fn empty_env() -> SecurityEnv {
    SecurityEnv {
        profile: None,
        direct_file_paths: None,
        file_paths_enabled: None,
        allowed_read_dirs: None,
        allowed_aux_dirs: None,
        allowed_export_dirs: None,
        max_pdf_bytes: None,
        max_http_body_bytes: None,
        max_markdown_bytes: None,
        max_html_bytes: None,
        max_template_name_bytes: None,
    }
}

#[test]
fn verifies_security_config_getters_and_setters() {
    let mut config = SecurityConfig::default();
    assert_eq!(config.profile(), SecurityProfile::Default);
    assert_eq!(config.is_direct_file_paths_enabled(), false);
    assert_eq!(config.is_file_paths_enabled(), false);
    assert!(config.allowed_read_dirs().is_empty());
    assert!(config.allowed_aux_dirs().is_empty());
    assert!(config.allowed_export_dirs().is_empty());
    assert_eq!(config.max_pdf_bytes(), 50 * 1024 * 1024);
    assert_eq!(config.max_http_body_bytes(), 10 * 1024 * 1024);
    assert_eq!(config.max_markdown_bytes(), 2 * 1024 * 1024);
    assert_eq!(config.max_html_bytes(), 2 * 1024 * 1024);
    assert_eq!(config.max_template_name_bytes(), 128);

    config.set_file_paths_enabled(true);
    config.set_allowed_read_dirs(vec!["/read".to_owned()]);
    config.set_allowed_aux_dirs(vec!["/aux".to_owned()]);
    config.set_allowed_export_dirs(vec!["/export".to_owned()]);
    config.set_max_pdf_bytes(100);
    config.set_max_http_body_bytes(200);
    config.set_max_markdown_bytes(300);
    config.set_max_html_bytes(400);
    config.set_max_template_name_bytes(50);

    assert_eq!(config.is_file_paths_enabled(), true);
    assert_eq!(config.allowed_read_dirs(), &["/read".to_owned()]);
    assert_eq!(config.allowed_aux_dirs(), &["/aux".to_owned()]);
    assert_eq!(config.allowed_export_dirs(), &["/export".to_owned()]);
    assert_eq!(config.max_pdf_bytes(), 100);
    assert_eq!(config.max_http_body_bytes(), 200);
    assert_eq!(config.max_markdown_bytes(), 300);
    assert_eq!(config.max_html_bytes(), 400);
    assert_eq!(config.max_template_name_bytes(), 50);
}

#[test]
fn default_profile_disables_direct_and_file_paths() {
    let config = SecurityConfig::from_sources(&empty_env(), "/work/project", None);

    assert_eq!(config.profile(), SecurityProfile::Default);
    assert!(!config.is_direct_file_paths_enabled());
    assert!(!config.is_file_paths_enabled());
    assert!(config.allowed_read_dirs().is_empty());
    assert!(config.allowed_aux_dirs().is_empty());
    assert!(config.allowed_export_dirs().is_empty());
    assert_eq!(config.max_pdf_bytes(), 50 * 1024 * 1024);
    assert_eq!(config.max_http_body_bytes(), 10 * 1024 * 1024);
    assert_eq!(config.max_markdown_bytes(), 2 * 1024 * 1024);
    assert_eq!(config.max_html_bytes(), 2 * 1024 * 1024);
    assert_eq!(config.max_template_name_bytes(), 128);
}

#[test]
fn paths_outside_the_allowed_roots_are_refused() {
    let config = SecurityConfig::default();
    let roots = vec!["/allowed".to_owned()];
    assert_eq!(config.check_existing_read_path("/allowed/a.pdf", &roots, "PDF read").unwrap(), "/allowed/a.pdf");
    let err = config.check_existing_read_path("/allowedx/a.pdf", &roots, "PDF read").unwrap_err();
    assert_eq!(err.message(), "Input rejected: PDF read path /allowedx/a.pdf is outside allowed directories");
}

#[test]
fn direct_paths_are_refused_by_default() {
    let config = SecurityConfig::default();
    let err = config.check_direct_file_paths_enabled().unwrap_err();
    assert!(err.message().contains("Direct file paths are disabled"));
}

#[test]
fn pdf_files_are_checked_for_extension_and_size() {
    let mut config = SecurityConfig::default();
    config.set_max_pdf_bytes(10);
    assert!(config.check_pdf_file("/a/paper.PDF", 10).is_ok());
    assert_eq!(
        config.check_pdf_file("/a/paper.txt", 1).unwrap_err().message(),
        "Input rejected: PDF read path must have a .pdf extension: /a/paper.txt"
    );
    assert_eq!(
        config.check_pdf_file("/a/paper.pdf", 11).unwrap_err().message(),
        "Input rejected: PDF file /a/paper.pdf exceeds 10 bytes"
    );
}

#[test]
fn aux_paths_must_lie_under_a_resolved_aux_directory() {
    let mut config = SecurityConfig::default_config();
    let dirs = vec![Some("/real/aux".to_owned())];
    assert!(config.check_aux_path("/real/aux/paper.aux", &dirs).is_err());
    config.set_file_paths_enabled(true);
    config.set_allowed_aux_dirs(vec!["/aux".to_owned(), "/missing".to_owned()]);
    let resolved = vec![Some("/real/aux".to_owned()), None, Some("/extra".to_owned())];
    assert_eq!(config.check_aux_path("/real/aux/paper.aux", &resolved), Ok("/real/aux/paper.aux".to_owned()));
    assert_eq!(
        config.check_aux_path("/extra/paper.aux", &resolved),
        Err(ZoteroApiError::InputRejected("AUX scan path /extra/paper.aux is outside allowed directories".to_owned()))
    );
}
