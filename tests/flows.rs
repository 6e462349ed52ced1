use auth_service::{
    login, login_verdict, register, register_after_insert, register_after_lookup,
    register_with_hash, validate_email_address, validate_password, ApiResponse, Lookup, Outcome,
    RegisterAction, User,
};

fn user(email: &str, password: &str) -> User {
    User { email: email.to_string(), password: password.to_string() }
}

/// An in-memory store of (email, hash) rows standing in for the database.
fn find(store: &Vec<(String, String)>, email: &str) -> Lookup<String> {
    for (e, h) in store {
        if e == email {
            return Lookup::Found(h.clone());
        }
    }
    Lookup::Absent
}

/// Runs a full registration against the in-memory store.
fn run_register(store: &mut Vec<(String, String)>, u: &User) -> Outcome {
    match register(u) {
        RegisterAction::Respond(o) => return o,
        RegisterAction::FindUser => {}
        RegisterAction::InsertUser(_) => panic!("insert before lookup"),
    }
    match register_after_lookup(u, find(store, &u.email)) {
        RegisterAction::Respond(o) => o,
        RegisterAction::InsertUser(h) => {
            store.push((u.email.clone(), h));
            register_after_insert(true)
        }
        RegisterAction::FindUser => panic!("second lookup"),
    }
}

fn run_login(store: &Vec<(String, String)>, u: &User) -> Outcome {
    login(u, find(store, &u.email))
}

#[test]
fn register_then_login_with_same_password() {
    let mut store = Vec::new();
    let created = run_register(&mut store, &user("a@b.com", "Abcdef1!"));
    assert_eq!(created, Outcome::AccountCreated);
    assert_eq!(created.code(), 201);
    assert_eq!(created.message(), "Account created successfully");
    assert_eq!(store.len(), 1);
    let logged = run_login(&store, &user("a@b.com", "Abcdef1!"));
    assert_eq!(logged, Outcome::LoggedIn);
    assert_eq!(logged.code(), 200);
    assert_eq!(logged.message(), "Logged in successfully");
}

#[test]
fn register_then_login_with_wrong_password() {
    let mut store = Vec::new();
    assert_eq!(run_register(&mut store, &user("a@b.com", "Abcdef1!")), Outcome::AccountCreated);
    let refused = run_login(&store, &user("a@b.com", "wrong"));
    assert_eq!(refused, Outcome::InvalidCredentials);
    assert_eq!(refused.code(), 401);
    assert_eq!(refused.message(), "Invalid username or password");
}

#[test]
fn register_same_email_twice() {
    let mut store = Vec::new();
    assert_eq!(run_register(&mut store, &user("a@b.com", "Abcdef1!")), Outcome::AccountCreated);
    let again = run_register(&mut store, &user("a@b.com", "Abcdef1!"));
    assert_eq!(again, Outcome::EmailTaken);
    assert_eq!(again.code(), 400);
    assert_eq!(again.message(), "Username already exists");
    assert_eq!(store.len(), 1);
}

#[test]
fn register_not_an_email() {
    match register(&user("not-an-email", "Abcdef1!")) {
        RegisterAction::Respond(o) => {
            assert_eq!(o, Outcome::InvalidEmail);
            assert_eq!(o.code(), 400);
            assert_eq!(o.message(), "Invalid email address");
        }
        _ => panic!("expected a response"),
    }
}

#[test]
fn register_short_password() {
    match register(&user("a@b.com", "short1!")) {
        RegisterAction::Respond(o) => {
            assert_eq!(o, Outcome::InvalidPassword);
            assert_eq!(o.code(), 400);
            assert_eq!(
                o.message(),
                "Invalid password. Password must be at least 8 characters and include upper/lower case, number, and special character"
            );
        }
        _ => panic!("expected a response"),
    }
}

#[test]
fn malformed_emails_refused_before_password() {
    for email in ["ab.com", "a@bcom", "a@b@com", "", "@", "a.b@com"] {
        for password in ["Abcdef1!", "x"] {
            match register(&user(email, password)) {
                RegisterAction::Respond(o) => assert_eq!(o, Outcome::InvalidEmail, "{}", email),
                _ => panic!("expected a response for {}", email),
            }
        }
    }
}

#[test]
fn weak_passwords_refused() {
    for password in ["abcdef1!", "ABCDEF1!", "Abcdefg!", "Abcdefg1", "Abc1!", "Abcdef1#x", ""] {
        match register(&user("a@b.com", password)) {
            RegisterAction::Respond(o) => assert_eq!(o, Outcome::InvalidPassword, "{}", password),
            _ => panic!("expected a response for {}", password),
        }
    }
}

#[test]
fn valid_credentials_go_to_lookup() {
    assert!(matches!(register(&user("a@b.com", "Abcdef1!")), RegisterAction::FindUser));
    assert!(matches!(register(&user("x.y@mail.example.org", "Zz9@zzzz")), RegisterAction::FindUser));
    assert!(matches!(register(&user("a@b.com", "Abcdefgh1&")), RegisterAction::FindUser));
}

#[test]
fn email_validation_examples() {
    assert!(validate_email_address("a@b.com"));
    assert!(validate_email_address("first.last@sub.domain.io"));
    assert!(!validate_email_address("not-an-email"));
    assert!(!validate_email_address("a@localhost"));
    assert!(!validate_email_address("a@b@c.com"));
    assert!(!validate_email_address("@b.com"));
    assert!(!validate_email_address(""));
}

#[test]
fn password_validation_examples() {
    assert!(validate_password("Abcdef1!").is_ok());
    assert!(validate_password("aB3$aaaa").is_ok());
    assert!(validate_password("Abcde1!").is_err());
    assert!(validate_password("abcdef1!").is_err());
    assert!(validate_password("ABCDEF1!").is_err());
    assert!(validate_password("Abcdefg!").is_err());
    assert!(validate_password("Abcdefg1").is_err());
    assert!(validate_password("Abcdef1#").is_err());
}

#[test]
fn login_unknown_email_matches_wrong_password() {
    let absent = login(&user("nobody@b.com", "Abcdef1!"), Lookup::Absent);
    let failed = login(&user("nobody@b.com", "Abcdef1!"), Lookup::Failed);
    let malformed = login(&user("a@b.com", "Abcdef1!"), Lookup::Found("not a hash".to_string()));
    assert_eq!(absent, Outcome::InvalidCredentials);
    assert_eq!(failed, absent);
    assert_eq!(malformed, absent);
    assert_eq!(absent.code(), 401);
}

#[test]
fn login_verdict_cases() {
    assert_eq!(login_verdict(Ok(true)), Outcome::LoggedIn);
    assert_eq!(login_verdict(Ok(false)), Outcome::InvalidCredentials);
    assert_eq!(login_verdict(bcrypt::verify("x", "bad hash")), Outcome::InvalidCredentials);
}

#[test]
fn register_with_hash_cases() {
    match register_with_hash(Ok("h".to_string())) {
        RegisterAction::InsertUser(h) => assert_eq!(h, "h"),
        _ => panic!("expected an insert"),
    }
    match register_with_hash(bcrypt::hash("x", 40)) {
        RegisterAction::Respond(o) => {
            assert_eq!(o, Outcome::HashingFailed);
            assert_eq!(o.code(), 500);
            assert_eq!(o.message(), "Password hashing failed");
        }
        _ => panic!("expected a response"),
    }
}

#[test]
fn lookup_found_is_duplicate() {
    match register_after_lookup(&user("a@b.com", "Abcdef1!"), Lookup::Found(7u64)) {
        RegisterAction::Respond(o) => assert_eq!(o, Outcome::EmailTaken),
        _ => panic!("expected a response"),
    }
}

#[test]
fn failed_lookup_proceeds_to_insert_with_real_hash() {
    match register_after_lookup::<u64>(&user("a@b.com", "Abcdef1!"), Lookup::Failed) {
        RegisterAction::InsertUser(h) => {
            assert_ne!(h, "Abcdef1!");
            assert!(h.starts_with("$2"));
            assert_eq!(login_verdict(bcrypt::verify("Abcdef1!", &h)), Outcome::LoggedIn);
        }
        _ => panic!("expected an insert"),
    }
}

#[test]
fn insert_results() {
    assert_eq!(register_after_insert(true), Outcome::AccountCreated);
    let failed = register_after_insert(false);
    assert_eq!(failed, Outcome::CreateFailed);
    assert_eq!(failed.code(), 500);
    assert_eq!(failed.message(), "Error creating user");
}

#[test]
fn response_envelopes() {
    let ok: ApiResponse<()> = Outcome::AccountCreated.to_response();
    assert!(ok.success);
    assert_eq!(ok.code, 201);
    assert_eq!(ok.message, "Account created successfully");
    assert!(ok.data.is_none());
    let bad: ApiResponse<()> = Outcome::InvalidCredentials.to_response();
    assert!(!bad.success);
    assert_eq!(bad.code, 401);
    for o in [
        Outcome::AccountCreated,
        Outcome::LoggedIn,
        Outcome::InvalidEmail,
        Outcome::InvalidPassword,
        Outcome::EmailTaken,
        Outcome::HashingFailed,
        Outcome::CreateFailed,
        Outcome::InvalidCredentials,
    ] {
        assert_eq!(o.is_success(), (200..300).contains(&o.code()));
    }
}
