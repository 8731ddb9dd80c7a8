use tasproxy::config::Credentials;

#[test]
fn auth_header_encodes_raw_credentials() {
    let creds = Credentials::Raw {
        username: "user".to_string(),
        password: "pass".to_string(),
    };
    assert_eq!(creds.auth_header(), "Basic dXNlcjpwYXNz");
}

#[test]
fn auth_header_of_empty_credentials() {
    let creds = Credentials::Raw {
        username: "".to_string(),
        password: "".to_string(),
    };
    assert_eq!(creds.auth_header(), "Basic Og==");
}

#[test]
fn username_of_both_forms() {
    let raw = Credentials::Raw {
        username: "alice".to_string(),
        password: "secret".to_string(),
    };
    let file = Credentials::File {
        username: "bob".to_string(),
        password_file: "/run/secrets/pass".to_string(),
    };
    assert_eq!(raw.username(), "alice");
    assert_eq!(file.username(), "bob");
}

#[test]
fn password_of_raw_credentials() {
    let raw = Credentials::Raw {
        username: "alice".to_string(),
        password: "secret".to_string(),
    };
    assert_eq!(raw.password(), "secret");
}
