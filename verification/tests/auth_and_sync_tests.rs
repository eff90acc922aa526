use sekolah::auth::{AuthUseCaseImpl, RegisterDto};
use sekolah::city::{CityRepositoryImpl, CityResponse, CityUseCaseImpl};
use sekolah::errors::{ErrorResponse, SResponse, BAD_REQUEST, UNAUTHORIZED};
use sekolah::middleware::{decode_basic_auth_token, role_gate_allows, super_admin_allows};
use sekolah::pagination::{
    check_pagination, effective_pagination, paginated, total_pages, PaginationParams,
};
use sekolah::province::{ProvinceRepositoryImpl, ProvinceResponse, ProvinceUseCaseImpl};
use sekolah::role::{CreateRoleDto, RoleRepositoryImpl, RoleUseCaseImpl};
use sekolah::school::SchoolRepositoryImpl;
use sekolah::user::{UserRepositoryImpl, UserStatus};

fn register_dto(email: &str, phone: &str) -> RegisterDto {
    RegisterDto {
        name: "Ana".to_string(),
        email: email.to_string(),
        phone_number: phone.to_string(),
        password: "hunter2".to_string(),
        school_name: "North High".to_string(),
    }
}

fn tables_with_user_role() -> (UserRepositoryImpl, RoleRepositoryImpl, SchoolRepositoryImpl) {
    let mut roles = RoleRepositoryImpl::new();
    let dto = CreateRoleDto { name: "user".to_string() };
    RoleUseCaseImpl::create(&mut roles, &dto, 9, 500).unwrap();
    (UserRepositoryImpl::new(), roles, SchoolRepositoryImpl::new())
}

#[test]
fn register_creates_school_and_user() {
    let (mut users, roles, mut schools) = tables_with_user_role();
    let u =
        AuthUseCaseImpl::register(&mut users, &roles, &mut schools, &register_dto("a@b.c", "555"))
            .unwrap();
    assert_eq!(schools.rows.len(), 1);
    assert_eq!(schools.rows[0].name, "North High");
    assert_eq!(users.rows.len(), 1);
    assert_eq!(u.email, "a@b.c");
    assert_eq!(u.role_id, 9);
    assert_eq!(u.school_id, schools.rows[0].id);
    assert!(matches!(u.status, UserStatus::Pending));
    // the plaintext never reaches the store
    assert_ne!(users.rows[0].password, "hunter2");
}

#[test]
fn register_blank_field_rejected() {
    let (mut users, roles, mut schools) = tables_with_user_role();
    let mut dto = register_dto("a@b.c", "555");
    dto.school_name = " \t".to_string();
    let r = AuthUseCaseImpl::register(&mut users, &roles, &mut schools, &dto);
    assert_eq!(r.err().unwrap().err_type, BAD_REQUEST);
    assert_eq!(users.rows.len(), 0);
    assert_eq!(schools.rows.len(), 0);
}

#[test]
fn register_duplicate_email_leaves_no_rows() {
    let (mut users, roles, mut schools) = tables_with_user_role();
    AuthUseCaseImpl::register(&mut users, &roles, &mut schools, &register_dto("a@b.c", "555"))
        .unwrap();
    let r = AuthUseCaseImpl::register(
        &mut users,
        &roles,
        &mut schools,
        &register_dto("a@b.c", "556"),
    );
    let e = r.err().unwrap();
    assert_eq!(e.err_type, BAD_REQUEST);
    assert_eq!(e.message.as_deref(), Some("Email is already used"));
    // no School or User row was created as a side effect
    assert_eq!(users.rows.len(), 1);
    assert_eq!(schools.rows.len(), 1);
}

#[test]
fn register_duplicate_phone_leaves_no_rows() {
    let (mut users, roles, mut schools) = tables_with_user_role();
    AuthUseCaseImpl::register(&mut users, &roles, &mut schools, &register_dto("a@b.c", "555"))
        .unwrap();
    let r = AuthUseCaseImpl::register(
        &mut users,
        &roles,
        &mut schools,
        &register_dto("z@b.c", "555"),
    );
    let e = r.err().unwrap();
    assert_eq!(e.message.as_deref(), Some("Phone is already used"));
    assert_eq!(users.rows.len(), 1);
    assert_eq!(schools.rows.len(), 1);
}

#[test]
fn register_without_default_role_rejected() {
    let mut users = UserRepositoryImpl::new();
    let roles = RoleRepositoryImpl::new();
    let mut schools = SchoolRepositoryImpl::new();
    let r = AuthUseCaseImpl::register(
        &mut users,
        &roles,
        &mut schools,
        &register_dto("a@b.c", "555"),
    );
    assert_eq!(r.err().unwrap().err_type, BAD_REQUEST);
    assert_eq!(users.rows.len(), 0);
    assert_eq!(schools.rows.len(), 0);
}

fn province_snapshot() -> Vec<ProvinceResponse> {
    vec![
        ProvinceResponse { code: "11".to_string(), name: "Aceh".to_string() },
        ProvinceResponse { code: "12".to_string(), name: "Sumatera Utara".to_string() },
    ]
}

#[test]
fn province_sync_inserts_absent_codes() {
    let mut provinces = ProvinceRepositoryImpl::new();
    assert!(ProvinceUseCaseImpl::create(&mut provinces, &province_snapshot(), 1000).is_ok());
    assert_eq!(provinces.rows.len(), 2);
    assert_eq!(provinces.rows[0].code, "11");
    assert_eq!(provinces.rows[1].name, "Sumatera Utara");
    let listed = ProvinceUseCaseImpl::list(&provinces).unwrap();
    assert_eq!(listed.len(), 2);
    assert_eq!(listed[0].id, "11");
}

#[test]
fn province_sync_twice_is_idempotent() {
    let mut provinces = ProvinceRepositoryImpl::new();
    assert!(ProvinceUseCaseImpl::create(&mut provinces, &province_snapshot(), 1000).is_ok());
    let after_once: Vec<(String, String, i64)> = provinces
        .rows
        .iter()
        .map(|p| (p.code.clone(), p.name.clone(), p.created_at))
        .collect();
    assert!(ProvinceUseCaseImpl::create(&mut provinces, &province_snapshot(), 2000).is_ok());
    let after_twice: Vec<(String, String, i64)> = provinces
        .rows
        .iter()
        .map(|p| (p.code.clone(), p.name.clone(), p.created_at))
        .collect();
    assert_eq!(after_once, after_twice);
}

#[test]
fn province_sync_never_reconciles_existing_rows() {
    let mut provinces = ProvinceRepositoryImpl::new();
    let first = vec![ProvinceResponse { code: "11".to_string(), name: "Old Name".to_string() }];
    assert!(ProvinceUseCaseImpl::create(&mut provinces, &first, 1000).is_ok());
    let renamed = vec![ProvinceResponse { code: "11".to_string(), name: "New Name".to_string() }];
    assert!(ProvinceUseCaseImpl::create(&mut provinces, &renamed, 2000).is_ok());
    assert_eq!(provinces.rows.len(), 1);
    assert_eq!(provinces.rows[0].name, "Old Name");
}

#[test]
fn city_sync_twice_is_idempotent() {
    let mut cities = CityRepositoryImpl::new();
    let snapshot = vec![
        CityResponse { code: "1101".to_string(), name: "Simeulue".to_string() },
        CityResponse { code: "1102".to_string(), name: "Aceh Singkil".to_string() },
    ];
    let pid = "11".to_string();
    assert!(CityUseCaseImpl::sync_for_province(&mut cities, &pid, &snapshot, 1000).is_ok());
    assert_eq!(cities.rows.len(), 2);
    assert_eq!(cities.rows[0].province_id, "11");
    assert!(CityUseCaseImpl::sync_for_province(&mut cities, &pid, &snapshot, 2000).is_ok());
    assert_eq!(cities.rows.len(), 2);
    assert_eq!(cities.rows[0].created_at, 1000);
    let listed = CityUseCaseImpl::list(&cities).unwrap();
    assert_eq!(listed.len(), 2);
    assert_eq!(listed[1].code, "1102");
}

#[test]
fn pagination_total_pages_is_rounded_up() {
    assert_eq!(total_pages(0, 10), 0);
    assert_eq!(total_pages(1, 10), 1);
    assert_eq!(total_pages(10, 10), 1);
    assert_eq!(total_pages(11, 10), 2);
    assert_eq!(total_pages(10, 3), 4);
}

#[test]
fn pagination_zero_rejected_and_offset_computed() {
    assert_eq!(check_pagination(0, 10).err().unwrap().err_type, BAD_REQUEST);
    assert_eq!(check_pagination(1, 0).err().unwrap().err_type, BAD_REQUEST);
    assert_eq!(check_pagination(1, 10).unwrap(), 0);
    assert_eq!(check_pagination(3, 10).unwrap(), 20);
}

#[test]
fn pagination_defaults_are_one_and_ten() {
    let params = PaginationParams { page: None, page_size: None };
    assert_eq!(effective_pagination(&params), (1, 10));
    let params = PaginationParams { page: Some(4), page_size: Some(25) };
    assert_eq!(effective_pagination(&params), (4, 25));
}

#[test]
fn paginated_envelope_reports_ceiling() {
    let envelope = paginated(vec!["a", "b"], 2, 3, 8);
    assert_eq!(envelope.page, 2);
    assert_eq!(envelope.page_size, 3);
    assert_eq!(envelope.total_data, 8);
    assert_eq!(envelope.total_pages, 3);
    assert_eq!(envelope.data, vec!["a", "b"]);
}

#[test]
fn basic_credentials_decode_and_split() {
    // "dXNlcjpwYXNz" is the standard base64 of "user:pass"; a wrapper that
    // handed its input back unchanged would fail this
    let parts = decode_basic_auth_token("dXNlcjpwYXNz").unwrap();
    assert_eq!(parts.0, b"user".to_vec());
    assert_eq!(parts.1, b"pass".to_vec());
    // not base64 at all
    assert!(decode_basic_auth_token("!!!").is_none());
    // no colon once decoded ("userpass")
    assert!(decode_basic_auth_token("dXNlcnBhc3M=").is_none());
    // two colons once decoded ("u:p:q")
    assert!(decode_basic_auth_token("dTpwOnE=").is_none());
}

#[test]
fn privileged_gate_matches_secret_exactly() {
    assert!(super_admin_allows("dXNlcjpwYXNz", "user:pass"));
    assert!(!super_admin_allows("dXNlcjpwYXNz", "user:wrong"));
    assert!(!super_admin_allows("dXNlcjpwYXNz", "user:pass2"));
    assert!(!super_admin_allows("not base64", "user:pass"));
}

#[test]
fn role_gate_needs_allowed_claim() {
    let allowed = vec!["admin".to_string(), "staff".to_string()];
    assert!(role_gate_allows(&Some("admin".to_string()), &allowed));
    assert!(role_gate_allows(&Some("staff".to_string()), &allowed));
    assert!(!role_gate_allows(&Some("user".to_string()), &allowed));
    assert!(!role_gate_allows(&None, &allowed));
    assert!(!role_gate_allows(&Some("admin".to_string()), &Vec::new()));
}

#[test]
fn error_shapes_carry_status_codes() {
    let e = ErrorResponse::new(UNAUTHORIZED, Some("no".to_string()), Some("FAILED".to_string()));
    assert_eq!(e.status_code(), 401);
    let s = SResponse::new(200, Some("ok".to_string()), Some("SUCCESS".to_string()));
    assert_eq!(s.status_code(), 200);
}

#[test]
fn gate_refusal_is_unauthorized() {
    let e = sekolah::middleware::gate_refusal("Invalid credentials");
    assert_eq!(e.err_type, 401);
    assert_eq!(e.message.as_deref(), Some("Invalid credentials"));
    assert_eq!(e.status.as_deref(), Some("Unauthorized"));
}
