use konbini_core::config::{match_app_env, AppEnv, Config, Setting};
use konbini_core::crypto::aes::{decrypt, CryptoError};
use konbini_core::crypto::encoding::from_hex;
use konbini_core::routes::{
    aes_cipher, create_user, list_users, CreateUserRequest, InvalidUser, AES,
};
use konbini_core::User;

fn is_random_uuid(id: &str) -> bool {
    let chars: Vec<char> = id.chars().collect();
    chars.len() == 36
        && chars.iter().enumerate().all(|(i, c)| match i {
            8 | 13 | 18 | 23 => *c == '-',
            _ => c.is_ascii_digit() || ('a'..='f').contains(c),
        })
        && chars[14] == '4'
        && matches!(chars[19], '8' | '9' | 'a' | 'b')
}

#[test]
fn new_user_keeps_its_fields_and_gets_an_id() {
    let user = User::new("alice".to_string(), "alice@example.com".to_string());
    assert_eq!(user.username, "alice");
    assert_eq!(user.email, "alice@example.com");
    assert!(is_random_uuid(&user.id));
    let other = User::new("alice".to_string(), "alice@example.com".to_string());
    assert!(is_random_uuid(&other.id));
    assert_ne!(user.id, other.id);
}

#[test]
fn user_id_is_a_uuid() {
    let user = User::new(String::new(), String::new());
    let parsed = uuid::Uuid::parse_str(&user.id).unwrap();
    assert_eq!(parsed.get_version_num(), 4);
    assert_eq!(parsed.to_string(), user.id);
}

#[test]
fn validate_asks_for_a_name_and_an_address() {
    let valid = |username: &str, email: &str| {
        User::new(username.to_string(), email.to_string()).validate()
    };
    assert!(valid("alice", "alice@example.com"));
    assert!(valid("a", "@"));
    assert!(valid("a", "x@"));
    assert!(valid("a", "@x"));
    assert!(valid("ユーザー", "名前@例.jp"));
    assert!(!valid("", "alice@example.com"));
    assert!(!valid("alice", ""));
    assert!(!valid("alice", "alice.example.com"));
    assert!(!valid("alice", "alice＠example.com"));
    assert!(!valid("", ""));
}

#[test]
fn clone_of_a_user_is_the_same_record() {
    let user = User::new("alice".to_string(), "alice@example.com".to_string());
    let copy = user.clone();
    assert_eq!(copy.id, user.id);
    assert_eq!(copy.username, user.username);
    assert_eq!(copy.email, user.email);
}

#[test]
fn app_env_by_name() {
    assert_eq!(match_app_env("development"), AppEnv::DEVELOPMENT);
    assert_eq!(match_app_env("staging"), AppEnv::STAGING);
    assert_eq!(match_app_env("production"), AppEnv::PRODUCTION);
    assert_eq!(match_app_env(""), AppEnv::DEVELOPMENT);
    assert_eq!(match_app_env("Production"), AppEnv::DEVELOPMENT);
    assert_eq!(match_app_env("STAGING"), AppEnv::DEVELOPMENT);
    assert_eq!(match_app_env("staging "), AppEnv::DEVELOPMENT);
    assert_eq!(match_app_env("stagin"), AppEnv::DEVELOPMENT);
    assert_eq!(match_app_env("productio"), AppEnv::DEVELOPMENT);
    assert_eq!(match_app_env("test"), AppEnv::DEVELOPMENT);
}

#[test]
fn app_env_from_the_variable() {
    assert_eq!(AppEnv::select(None), AppEnv::DEVELOPMENT);
    assert_eq!(AppEnv::select(Some("production")), AppEnv::PRODUCTION);
    assert_eq!(AppEnv::select(Some("staging")), AppEnv::STAGING);
    assert_eq!(AppEnv::select(Some("development")), AppEnv::DEVELOPMENT);
    assert_eq!(AppEnv::select(Some("other")), AppEnv::DEVELOPMENT);
}

#[test]
fn only_development_reads_dotenv() {
    assert!(AppEnv::DEVELOPMENT.reads_dotenv());
    assert!(!AppEnv::STAGING.reads_dotenv());
    assert!(!AppEnv::PRODUCTION.reads_dotenv());
}

#[test]
fn settings_name_their_variables() {
    assert_eq!(Setting::TursoDatabaseUrl.variable(), "TURSO_DATABASE_URL");
    assert_eq!(Setting::TursoAuthToken.variable(), "TURSO_AUTH_TOKEN");
    assert_eq!(Setting::BackendUrl.variable(), "BACKEND_URL");
    assert_eq!(Setting::ResendApiKey.variable(), "RESEND_API_KEY");
    assert_eq!(Setting::NoreplyEmail.variable(), "NOREPLY_EMAIL");
}

fn some(text: &str) -> Option<String> {
    Some(text.to_string())
}

#[test]
fn config_from_all_values() {
    let config = Config::from_values(
        AppEnv::STAGING,
        some("libsql://db"),
        some("token"),
        some("https://api"),
        some("re_key"),
        some("noreply@example.com"),
    )
    .unwrap();
    assert_eq!(config.app_env, AppEnv::STAGING);
    assert_eq!(config.turso_database_url, "libsql://db");
    assert_eq!(config.turso_auth_token, "token");
    assert_eq!(config.backend_url, "https://api");
    assert_eq!(config.resend_api_key, "re_key");
    assert_eq!(config.noreply_email, "noreply@example.com");
}

#[test]
fn config_names_the_first_missing_value() {
    let missing = |a: bool, b: bool, c: bool, d: bool, e: bool| {
        let v = |present: bool| if present { some("x") } else { None };
        Config::from_values(AppEnv::PRODUCTION, v(a), v(b), v(c), v(d), v(e)).err()
    };
    assert_eq!(missing(true, true, true, true, true), None);
    assert_eq!(missing(false, true, true, true, true), Some(Setting::TursoDatabaseUrl));
    assert_eq!(missing(true, false, true, true, true), Some(Setting::TursoAuthToken));
    assert_eq!(missing(true, true, false, true, true), Some(Setting::BackendUrl));
    assert_eq!(missing(true, true, true, false, true), Some(Setting::ResendApiKey));
    assert_eq!(missing(true, true, true, true, false), Some(Setting::NoreplyEmail));
    assert_eq!(missing(false, false, false, false, false), Some(Setting::TursoDatabaseUrl));
    assert_eq!(missing(true, false, true, false, true), Some(Setting::TursoAuthToken));
    assert_eq!(missing(true, true, false, false, false), Some(Setting::BackendUrl));
    assert_eq!(missing(true, true, true, false, false), Some(Setting::ResendApiKey));
}

#[test]
fn create_user_stores_a_valid_user() {
    let mut users: Vec<User> = Vec::new();
    let request = CreateUserRequest {
        username: "alice".to_string(),
        email: "alice@example.com".to_string(),
    };
    let user = create_user(&mut users, request).unwrap();
    assert_eq!(user.username, "alice");
    assert_eq!(user.email, "alice@example.com");
    assert!(is_random_uuid(&user.id));
    assert_eq!(users.len(), 1);
    assert_eq!(users[0].id, user.id);
    assert_eq!(users[0].username, "alice");
    assert_eq!(users[0].email, "alice@example.com");

    let request = CreateUserRequest { username: "bob".to_string(), email: "bob@example.com".to_string() };
    let second = create_user(&mut users, request).unwrap();
    assert_eq!(users.len(), 2);
    assert_eq!(users[0].id, user.id);
    assert_eq!(users[1].id, second.id);
    assert_eq!(users[1].username, "bob");
}

#[test]
fn create_user_refuses_an_invalid_user() {
    let mut users: Vec<User> = Vec::new();
    let request = CreateUserRequest { username: "alice".to_string(), email: "nowhere".to_string() };
    assert_eq!(create_user(&mut users, request).err(), Some(InvalidUser));
    let request = CreateUserRequest { username: String::new(), email: "a@b".to_string() };
    assert_eq!(create_user(&mut users, request).err(), Some(InvalidUser));
    let request = CreateUserRequest { username: "alice".to_string(), email: String::new() };
    assert_eq!(create_user(&mut users, request).err(), Some(InvalidUser));
    assert!(users.is_empty());
}

#[test]
fn aes_new_keeps_each_text_in_its_place() {
    let aes = AES::new("k".to_string(), "p".to_string(), "c".to_string());
    assert_eq!(aes.key, "k");
    assert_eq!(aes.plaintext, "p");
    assert_eq!(aes.ciphertext, "c");
    let copy = aes.clone();
    assert_eq!(copy.key, "k");
    assert_eq!(copy.plaintext, "p");
    assert_eq!(copy.ciphertext, "c");
}

#[test]
fn aes_cipher_shows_one_run() {
    let aes = aes_cipher().unwrap();
    assert_eq!(aes.plaintext, "some text");
    assert_eq!(aes.key.len(), 64);
    assert!(aes.key.chars().all(|c| c.is_ascii_digit() || ('a'..='f').contains(&c)));
    assert_eq!(aes.ciphertext.len(), 2 * 37);
    assert!(aes.ciphertext.chars().all(|c| c.is_ascii_digit() || ('A'..='F').contains(&c)));
    let key = from_hex(&aes.key).unwrap();
    assert_eq!(decrypt(&key, &aes.ciphertext), Ok(b"some text".to_vec()));
    let other = aes_cipher().unwrap();
    assert_ne!(other.key, aes.key);
    assert_ne!(other.ciphertext, aes.ciphertext);
    assert_eq!(decrypt(&key, &other.ciphertext), Err(CryptoError::Authentication));
}

#[test]
fn list_users_gives_the_users_in_order() {
    let mut users: Vec<User> = Vec::new();
    assert!(list_users(&users).is_empty());
    for name in ["alice", "bob", "carol"] {
        let request = CreateUserRequest {
            username: name.to_string(),
            email: format!("{}@example.com", name),
        };
        create_user(&mut users, request).unwrap();
    }
    let listed = list_users(&users);
    assert_eq!(listed.len(), 3);
    for (listed, stored) in listed.iter().zip(users.iter()) {
        assert_eq!(listed.id, stored.id);
        assert_eq!(listed.username, stored.username);
        assert_eq!(listed.email, stored.email);
    }
    assert_eq!(listed[0].username, "alice");
    assert_eq!(listed[1].username, "bob");
    assert_eq!(listed[2].username, "carol");
}
