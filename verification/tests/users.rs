use shop_backend::auth::{claims_match as login_claims_match, Claims as LoginClaims};
use shop_backend::login::{User as LoginUser, UsrPermit};
use shop_backend::server::{
    burst_size_or_default, eq_ignore_ascii_case, is_shutdown_command, login_response, rate_limit_or_default,
    sprawdz_rejestracje_serwera, zaloguj,
};
use shop_backend::sqlite_serv::auth::{
    bearer_token, check_is_admin, check_is_own_acc, check_is_user, check_is_valid, claims_match, tylko_admin,
    wynik_usuniecia, BladBazy, Claims,
};
use shop_backend::sqlite_serv::user::{
    empty_string_as_none, match_role, registration_verdict, role_from_lowercase, sprawdz_rejestracje, zmien_haslo,
    RegisterRequest, User, UserRola,
};

fn claims(role: &str, sub: i64) -> Claims {
    Claims { sub, username: "jan".to_string(), role: role.to_string(), exp: 0 }
}

fn request(username: &str, password: &str, confirm: &str, email: Option<&str>, conditions: bool) -> RegisterRequest {
    RegisterRequest {
        username: username.to_string(),
        password: password.to_string(),
        confirm_password: confirm.to_string(),
        email: email.map(|e| e.to_string()),
        name: None,
        registration_conditions: conditions,
    }
}

fn user_with(password: &str, pepper: &[u8]) -> User {
    User::new("jan".to_string(), None, Some("jan@x.pl".to_string()), password, pepper).unwrap()
}

#[test]
fn roles_by_name() {
    assert_eq!(match_role("Admin"), UserRola::Admin);
    assert_eq!(match_role("ADMIN"), UserRola::Admin);
    assert_eq!(match_role("user"), UserRola::User);
    assert_eq!(match_role("Guest"), UserRola::Guest);
    assert_eq!(match_role("root"), UserRola::Guest);
    assert_eq!(role_from_lowercase("Admin"), UserRola::Guest);
    assert_eq!(UserRola::User.name(), "User");
    for role in [UserRola::Admin, UserRola::User, UserRola::Guest] {
        assert_eq!(match_role(role.name()), role);
        assert_eq!(match_role(&format!("{:?}", role)), role);
    }
}

#[test]
fn permission_checks() {
    assert!(check_is_admin(&claims("admin", 1)).is_ok());
    let e = check_is_admin(&claims("User", 1)).unwrap_err();
    assert_eq!((e.status, e.message.as_str()), (403, "Brak uprawnień. Ta operacja wymaga roli Admin."));
    assert!(check_is_user(&claims("User", 1)).is_ok());
    assert!(check_is_user(&claims("Admin", 1)).is_ok());
    assert_eq!(check_is_user(&claims("Guest", 1)).unwrap_err().status, 403);
    assert!(tylko_admin(&claims("Admin", 1)).is_ok());
    assert!(tylko_admin(&claims("admin", 1)).is_err());
}

#[test]
fn admin_passes_user_check() {
    for role in ["Admin", "ADMIN", "admin", "aDmIn"] {
        let c = claims(role, 5);
        assert!(check_is_admin(&c).is_ok());
        assert!(check_is_user(&c).is_ok());
    }
}

#[test]
fn own_account_and_confirmation() {
    let u = user_with("haslo1234", b"p");
    assert!(u.password_hash.len() == 60 && u.password_hash.starts_with("$2b$12$"));
    let l = LoginUser::new(5, "ola".to_string(), UsrPermit::User, "tajne", "pieprz").unwrap();
    assert!(l.password_hash.len() == 60 && l.password_hash.starts_with("$2b$12$"));
    assert!(check_is_own_acc(&claims("User", 0), &u).is_ok());
    assert_eq!(check_is_own_acc(&claims("User", 7), &u).unwrap_err().message, "Błędny użytkownik (mismatch id).");
    assert!(check_is_valid(Some(true)).is_ok());
    assert_eq!(check_is_valid(Some(false)).unwrap_err().status, 403);
    assert_eq!(check_is_valid(None).unwrap_err().status, 500);
}

#[test]
fn bearer_tokens() {
    assert_eq!(bearer_token(None), Err(401));
    assert_eq!(bearer_token(Some("Basic abc")), Err(400));
    assert_eq!(bearer_token(Some("Bearer abc.def")), Ok("abc.def".to_string()));
    assert_eq!(bearer_token(Some("Bearer ")), Ok(String::new()));
}

#[test]
fn admin_claims_only() {
    let ok = claims_match(Ok(claims("Admin", 3))).unwrap();
    assert_eq!(ok.sub, 3);
    let e = claims_match(Ok(claims("admin", 3))).unwrap_err();
    assert_eq!((e.status, e.message.as_str()), (403, "Brak uprawnień administratora. Wymagana rola: Admin"));
    let e = claims_match(Err(401)).unwrap_err();
    assert_eq!((e.status, e.message.as_str()), (401, ""));
    let c = LoginClaims { sub: 9, username: "a".to_string(), role: "Admin".to_string(), exp: 1 };
    assert_eq!(login_claims_match(Ok(c)).unwrap().sub, 9);
    assert_eq!(login_claims_match(Err(400)).unwrap_err().status, 400);
}

#[test]
fn deleting_accounts() {
    assert!(wynik_usuniecia(Ok(1), "brak").is_ok());
    let e = wynik_usuniecia(Ok(0), "User o podanym ID nie istnieje").unwrap_err();
    assert_eq!((e.status, e.message.as_str()), (404, "User o podanym ID nie istnieje"));
    assert_eq!(wynik_usuniecia(Err(BladBazy::NaruszenieKlucza), "x").unwrap_err().status, 409);
    let e = wynik_usuniecia(Err(BladBazy::Inny("dysk".to_string())), "x").unwrap_err();
    assert_eq!((e.status, e.message.as_str()), (500, "dysk"));
}

#[test]
fn blank_fields_are_dropped() {
    assert_eq!(empty_string_as_none(Some("  ".to_string())), None);
    assert_eq!(empty_string_as_none(Some("".to_string())), None);
    assert_eq!(empty_string_as_none(Some(" a ".to_string())), Some(" a ".to_string()));
    assert_eq!(empty_string_as_none(None), None);
}

#[test]
fn registration_checks_in_order() {
    let good = request("jan_k", "haslo1234", "haslo1234", Some("jan@x.pl"), true);
    assert!(registration_verdict(true, &good).is_ok());
    assert_eq!(registration_verdict(false, &good).unwrap_err().message,
        "Login musi mieć od 3 do 20 znaków i może zawierać tylko litery, cyfry oraz znak '_'");
    let r = request("jan_k", "haslo1234", "haslo1235", Some("jan@x.pl"), true);
    assert_eq!(registration_verdict(true, &r).unwrap_err().message, "Hasła nie są identyczne");
    let r = request("jan_k", "haslo1234", "haslo1234", Some("janx.pl"), true);
    assert_eq!(registration_verdict(true, &r).unwrap_err().message, "Niepoprawny format emaila");
    let r = request("jan_k", "haslo1234", "haslo1234", Some("a@b"), true);
    assert_eq!(registration_verdict(true, &r).unwrap_err().message, "Niepoprawny format emaila");
    let r = request("jan_k", "haslo1234", "haslo1234", None, true);
    assert_eq!(registration_verdict(true, &r).unwrap_err().message, "Niepoprawny format emaila");
    let r = request("jan_k", "haslo1234", "haslo1234", Some("jan@x.pl"), false);
    assert_eq!(registration_verdict(true, &r).unwrap_err().message, "Musisz zaakceptować warunki regulaminu");
    let r = request("jan_k", "krotkie", "krotkie", Some("jan@x.pl"), true);
    let e = registration_verdict(true, &r).unwrap_err();
    assert_eq!((e.status, e.message.as_str()), (400, "Hasło musi mieć od 8 do 100 znaków"));
    let long = "x".repeat(101);
    let r = request("jan_k", &long, &long, Some("jan@x.pl"), true);
    assert!(registration_verdict(true, &r).is_err());
}

#[test]
fn registration_with_the_login_pattern() {
    let ok = sprawdz_rejestracje(&request("  jan_k ", "haslo1234", "haslo1234", Some("jan@x.pl"), true)).unwrap();
    assert_eq!(ok, "jan_k");
    for bad in ["jk", "jan k", "jan-k", "a_very_long_login_name_1"] {
        let e = sprawdz_rejestracje(&request(bad, "haslo1234", "haslo1234", Some("jan@x.pl"), true)).unwrap_err();
        assert_eq!(e.status, 400);
    }
    assert_eq!(sprawdz_rejestracje_serwera(" ala ", "haslo1234").unwrap(), "ala");
    assert_eq!(sprawdz_rejestracje_serwera("ala", "krotkie").unwrap_err().message, "Hasło musi mieć od 8 do 100 znaków");
    assert_eq!(sprawdz_rejestracje_serwera("a!", "haslo1234").unwrap_err().message,
        "Login musi mieć od 3 do 20 znaków i zawierać tylko litery, cyfry oraz znak '_'");
    assert_eq!(sprawdz_rejestracje_serwera("Jan_99", "haslo1234").unwrap(), "Jan_99");
    assert_eq!(sprawdz_rejestracje_serwera("ab", "haslo1234").unwrap_err().status, 400);
    assert_eq!(sprawdz_rejestracje_serwera("a234567890123456789_", "haslo1234").unwrap(), "a234567890123456789_");
    assert_eq!(sprawdz_rejestracje_serwera("a234567890123456789_x", "haslo1234").unwrap_err().status, 400);
    assert_eq!(sprawdz_rejestracje_serwera("żółw", "haslo1234").unwrap_err().status, 400);
    assert_eq!(sprawdz_rejestracje_serwera("ala\nkot", "haslo1234").unwrap_err().status, 400);
}

#[test]
fn new_account_then_password_check() {
    let u = user_with("haslo1234", b"pieprz");
    assert_eq!(u.id, 0);
    assert_eq!(u.permission, UserRola::User);
    assert!(!u.valid);
    assert_eq!(u.email.as_deref(), Some("jan@x.pl"));
    assert!(u.verify_password("haslo1234", b"pieprz"));
    assert!(!u.verify_password("haslo12345", b"pieprz"));
    let l = LoginUser::new(4, "ola".to_string(), UsrPermit::Admin, "tajne123", "pieprz").unwrap();
    assert_eq!((l.id, l.permission, l.valid), (4, UsrPermit::Admin, false));
    assert!(l.verify_password("tajne123", "pieprz"));
    assert!(!l.verify_password("tajne123", "sol"));
}

#[test]
fn changing_a_password() {
    let u = user_with("stare12345", b"p");
    let stored = zmien_haslo("stare12345", "nowe12345", &u.password_hash, b"p").unwrap();
    assert!(stored.len() == 60 && stored.starts_with("$2b$12$"));
    assert!(shop_backend::crypto::check_password("nowe12345", &stored, b"p"));
    assert!(!shop_backend::crypto::check_password("stare12345", &stored, b"p"));
    let e = zmien_haslo("zle", "nowe12345", &u.password_hash, b"p").unwrap_err();
    assert_eq!((e.status, e.message.as_str()), (401, "Nieprawidłowe stare hasło"));
}

#[test]
fn signing_in() {
    let u = user_with("haslo1234", b"p");
    let c = zaloguj(Ok(Some(u)), "haslo1234", b"p", 1000).unwrap();
    assert_eq!((c.sub, c.username.as_str(), c.role.as_str(), c.exp), (0, "jan", "User", 1000));
    let r = login_response("tok".to_string(), c);
    assert_eq!((r.token.as_str(), r.username.as_str(), r.role.as_str()), ("tok", "jan", "User"));
    let e = zaloguj(Ok(Some(user_with("haslo1234", b"p"))), "inne123456", b"p", 0).unwrap_err();
    assert_eq!((e.status, e.message.as_str()), (401, "Niepoprawne hasło"));
    assert_eq!(zaloguj(Ok(None), "x", b"p", 0).unwrap_err().message, "Użytkownik nie istnieje");
    assert_eq!(zaloguj(Err("db".to_string()), "x", b"p", 0).unwrap_err().status, 500);
}

#[test]
fn console_and_limits() {
    assert!(is_shutdown_command("  EXIT \n"));
    assert!(is_shutdown_command("Stop"));
    assert!(!is_shutdown_command("quit"));
    assert!(is_shutdown_command("\u{3000}exit\u{2003}\t"));
    assert!(!is_shutdown_command("\u{200B}exit"));
    assert!(eq_ignore_ascii_case("AbC", "aBc"));
    assert!(!eq_ignore_ascii_case("ab", "abc"));
    assert_eq!(burst_size_or_default("10"), 10);
    assert_eq!(burst_size_or_default("ten"), 5);
    assert_eq!(rate_limit_or_default("7"), 7);
    assert_eq!(rate_limit_or_default("-7"), 2);
}

#[test]
fn accounts_around_a_hash() {
    let u = User::z_hasha("ala".to_string(), Some("Ala".to_string()), None, Ok("$2b$12$abc".to_string())).unwrap();
    assert_eq!((u.id, u.username.as_str(), u.password_hash.as_str(), u.permission, u.valid), (0, "ala", "$2b$12$abc", UserRola::User, false));
    assert!(User::z_hasha("ala".to_string(), None, None, Err(bcrypt::BcryptError::CostNotAllowed(3))).is_err());
    let l = LoginUser::z_hasha(2, "ola".to_string(), UsrPermit::Guest, Ok("h".to_string())).unwrap();
    assert_eq!((l.id, l.permission, l.password_hash.as_str()), (2, UsrPermit::Guest, "h"));
    assert!(LoginUser::z_hasha(2, "ola".to_string(), UsrPermit::Guest, Err(bcrypt::BcryptError::CostNotAllowed(40))).is_err());
}
