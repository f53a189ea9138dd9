use virtual_feed::protocol::{
    check_directory_access, check_extension, create_error_response, extract_file_path,
    file_response, resolve_request_path, supported_extension, validate_file_extension,
    validate_file_path, PathAccess, ProtocolError,
};

fn dirs(v: &[&str]) -> Vec<String> {
    v.iter().map(|s| s.to_string()).collect()
}

#[test]
fn extract_strips_prefix() {
    assert_eq!(extract_file_path("/myprotocol/assets/a.png"), Ok("assets/a.png".to_string()));
}

#[test]
fn extract_refuses_other_prefix() {
    assert_eq!(
        extract_file_path("/other/a.png"),
        Err(ProtocolError::InvalidPath("Path doesn't start with /myprotocol/".to_string()))
    );
}

#[test]
fn extensions() {
    assert!(supported_extension("avif"));
    assert!(!supported_extension("AVIF"));
    assert!(!supported_extension("txt"));
    assert_eq!(validate_file_extension("a/b.PNG"), Ok(()));
    assert_eq!(validate_file_extension("a/b.svg"), Ok(()));
    assert_eq!(
        validate_file_extension("a/b.TXT"),
        Err(ProtocolError::UnsupportedExtension("txt".to_string()))
    );
    assert_eq!(
        validate_file_extension("a/noext"),
        Err(ProtocolError::UnsupportedExtension("No extension found".to_string()))
    );
    assert_eq!(
        validate_file_extension("a/.png"),
        Err(ProtocolError::UnsupportedExtension("No extension found".to_string()))
    );
    assert_eq!(check_extension(Some("JpEg".to_string())), Ok(()));
    assert_eq!(
        check_extension(None),
        Err(ProtocolError::UnsupportedExtension("No extension found".to_string()))
    );
}

#[test]
fn allow_all() {
    assert_eq!(
        validate_file_path("/etc/x.gif", &dirs(&["*"])),
        Ok(PathAccess::Unrestricted("/etc/x.gif".to_string()))
    );
    assert_eq!(
        validate_file_path("/etc/x.gif", &dirs(&["*", "assets"])),
        Ok(PathAccess::Restricted("/etc/x.gif".to_string()))
    );
    assert_eq!(
        validate_file_path("/etc/x.exe", &dirs(&["*"])),
        Err(ProtocolError::UnsupportedExtension("exe".to_string()))
    );
}

#[test]
fn resolve_decodes_percent_escapes() {
    assert_eq!(
        resolve_request_path("/myprotocol/assets/my%20pic.png", &dirs(&["assets"])),
        Ok(PathAccess::Restricted("assets/my pic.png".to_string()))
    );
    assert_eq!(
        resolve_request_path("/myprotocol/a+b.png", &dirs(&["*"])),
        Ok(PathAccess::Unrestricted("a+b.png".to_string()))
    );
}

#[test]
fn resolve_refuses_bad_utf8() {
    assert_eq!(
        resolve_request_path("/myprotocol/%FF.png", &dirs(&["*"])),
        Err(ProtocolError::InvalidPath("/myprotocol/%FF.png".to_string()))
    );
    assert_eq!(
        resolve_request_path("/x/a.png", &dirs(&["*"])),
        Err(ProtocolError::InvalidPath("Path doesn't start with /myprotocol/".to_string()))
    );
}

#[test]
fn directory_access() {
    let allowed = vec![None, Some("/srv/assets".to_string())];
    assert_eq!(
        check_directory_access("/srv/assets/images/a.png", &allowed),
        Ok("/srv/assets/images/a.png".to_string())
    );
    assert_eq!(
        check_directory_access("/srv/assets2/a.png", &allowed),
        Err(ProtocolError::PathNotAllowed("/srv/assets2/a.png".to_string()))
    );
    assert_eq!(
        check_directory_access("/srv/a.png", &vec![]),
        Err(ProtocolError::PathNotAllowed("/srv/a.png".to_string()))
    );
}

#[test]
fn error_responses() {
    let cases = [
        (ProtocolError::FileNotFound("p".to_string()), 404, "File not found"),
        (ProtocolError::PathNotAllowed("p".to_string()), 403, "Access denied"),
        (ProtocolError::UnsupportedExtension("p".to_string()), 415, "Unsupported media type"),
        (ProtocolError::InvalidPath("p".to_string()), 400, "Bad request"),
        (ProtocolError::IoError("p".to_string()), 500, "Internal server error"),
    ];
    for (e, status, body) in cases {
        let r = create_error_response(&e);
        assert_eq!(r.status, status);
        assert_eq!(r.content_type, None);
        assert_eq!(r.body, body.as_bytes().to_vec());
    }
}

#[test]
fn error_messages() {
    assert_eq!(ProtocolError::PathNotAllowed("/a".to_string()).message(), "Path not allowed: /a");
    assert_eq!(ProtocolError::UnsupportedExtension("txt".to_string()).message(), "Unsupported extension: txt");
    assert_eq!(ProtocolError::FileNotFound("/b".to_string()).message(), "File not found: /b");
    assert_eq!(ProtocolError::InvalidPath("/c".to_string()).message(), "Invalid path: /c");
    assert_eq!(ProtocolError::IoError("boom".to_string()).message(), "IO error: boom");
}

#[test]
fn file_responses_are_typed() {
    let r = file_response("assets/a.png", vec![1, 2, 3]);
    assert_eq!(r.status, 200);
    assert_eq!(r.content_type, Some("image/png".to_string()));
    assert_eq!(r.body, vec![1, 2, 3]);
    let r = file_response("assets/a.svg", vec![]);
    assert_eq!(r.content_type, Some("image/svg+xml".to_string()));
}
