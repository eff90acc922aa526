use sekolah::errors::{BAD_REQUEST, NOT_FOUND};
use sekolah::role::{CreateRoleDto, RoleRepositoryImpl, RoleUseCaseImpl, UpdateRoleDto};
use sekolah::school::{CreateSchoolDto, SchoolRepositoryImpl, SchoolUseCaseImpl, UpdateSchoolDto};
use sekolah::subscription::{
    CreateSubscriptionDto, SubscriptionRepositoryImpl, SubscriptionUseCaseImpl,
    UpdateSubscriptionDto,
};
use sekolah::subscription_type::{
    CreateSubscriptionTypeDto, SubscriptionTypeRepositoryImpl, SubscriptionTypeUseCaseImpl,
    UpdateSubscriptionTypeDto,
};
use sekolah::user::{CreateUserDto, UserRepositoryImpl, UserStatus, UserUseCaseImpl, UpdateUserDto};

fn role_dto(name: &str) -> CreateRoleDto {
    CreateRoleDto { name: name.to_string() }
}

#[test]
fn create_role_stores_row() {
    let mut roles = RoleRepositoryImpl::new();
    let r = RoleUseCaseImpl::create(&mut roles, &role_dto("admin"), 1, 1000);
    assert!(r.is_ok());
    assert_eq!(roles.rows.len(), 1);
    assert_eq!(roles.rows[0].name, "admin");
    assert_eq!(roles.rows[0].created_at, 1000);
    assert_eq!(roles.rows[0].updated_at, 1000);
    assert!(roles.rows[0].deleted_at.is_none());
}

#[test]
fn create_role_blank_name_rejected_before_write() {
    let mut roles = RoleRepositoryImpl::new();
    let r = RoleUseCaseImpl::create(&mut roles, &role_dto("   "), 1, 1000);
    let e = r.err().unwrap();
    assert_eq!(e.err_type, BAD_REQUEST);
    assert_eq!(e.message.as_deref(), Some("Invalid role name"));
    assert_eq!(roles.rows.len(), 0);
}

#[test]
fn create_role_unicode_whitespace_rejected() {
    let mut roles = RoleRepositoryImpl::new();
    // ideographic space and no-break space trim to nothing
    let r = RoleUseCaseImpl::create(&mut roles, &role_dto("\u{3000}\u{A0}\t\n"), 1, 1000);
    assert!(r.is_err());
    assert_eq!(roles.rows.len(), 0);
}

#[test]
fn create_role_duplicate_name_rejected() {
    let mut roles = RoleRepositoryImpl::new();
    assert!(RoleUseCaseImpl::create(&mut roles, &role_dto("admin"), 1, 1000).is_ok());
    let r = RoleUseCaseImpl::create(&mut roles, &role_dto("admin"), 2, 2000);
    assert_eq!(r.err().unwrap().err_type, BAD_REQUEST);
    assert_eq!(roles.rows.len(), 1);
}

#[test]
fn update_role_blank_after_trim_rejected() {
    // the pinned behavior: a name that trims to empty is rejected, the row kept
    let mut roles = RoleRepositoryImpl::new();
    assert!(RoleUseCaseImpl::create(&mut roles, &role_dto("admin"), 1, 1000).is_ok());
    let dto = UpdateRoleDto { name: Some("  ".to_string()) };
    let r = RoleUseCaseImpl::update(&mut roles, 1, &dto, 2000);
    assert_eq!(r.err().unwrap().err_type, BAD_REQUEST);
    assert_eq!(roles.rows[0].name, "admin");
    assert_eq!(roles.rows[0].updated_at, 1000);
}

#[test]
fn update_role_trims_given_name() {
    let mut roles = RoleRepositoryImpl::new();
    assert!(RoleUseCaseImpl::create(&mut roles, &role_dto("admin"), 1, 1000).is_ok());
    let dto = UpdateRoleDto { name: Some("  editor \u{3000}".to_string()) };
    assert!(RoleUseCaseImpl::update(&mut roles, 1, &dto, 2000).is_ok());
    assert_eq!(roles.rows[0].name, "editor");
    assert_eq!(roles.rows[0].updated_at, 2000);
    assert_eq!(roles.rows[0].created_at, 1000);
}

#[test]
fn update_role_unset_field_keeps_stored_values() {
    let mut roles = RoleRepositoryImpl::new();
    assert!(RoleUseCaseImpl::create(&mut roles, &role_dto("admin"), 1, 1000).is_ok());
    let dto = UpdateRoleDto { name: None };
    assert!(RoleUseCaseImpl::update(&mut roles, 1, &dto, 2000).is_ok());
    assert_eq!(roles.rows[0].name, "admin");
    assert_eq!(roles.rows[0].created_at, 1000);
    // only the update timestamp is refreshed
    assert_eq!(roles.rows[0].updated_at, 2000);
    assert!(roles.rows[0].deleted_at.is_none());
}

#[test]
fn update_role_missing_row_not_found() {
    let mut roles = RoleRepositoryImpl::new();
    let dto = UpdateRoleDto { name: Some("editor".to_string()) };
    let r = RoleUseCaseImpl::update(&mut roles, 42, &dto, 2000);
    assert_eq!(r.err().unwrap().err_type, NOT_FOUND);
}

#[test]
fn delete_role_removes_row() {
    let mut roles = RoleRepositoryImpl::new();
    assert!(RoleUseCaseImpl::create(&mut roles, &role_dto("admin"), 1, 1000).is_ok());
    assert!(RoleUseCaseImpl::delete(&mut roles, 1).is_ok());
    assert_eq!(roles.rows.len(), 0);
}

#[test]
fn delete_missing_role_is_idempotent() {
    let mut roles = RoleRepositoryImpl::new();
    assert!(RoleUseCaseImpl::create(&mut roles, &role_dto("admin"), 1, 1000).is_ok());
    let r = RoleUseCaseImpl::delete(&mut roles, 999);
    assert!(r.is_ok());
    assert_eq!(roles.rows.len(), 1);
    // deleting the same id twice equals deleting it once
    assert!(RoleUseCaseImpl::delete(&mut roles, 1).is_ok());
    assert!(RoleUseCaseImpl::delete(&mut roles, 1).is_ok());
    assert_eq!(roles.rows.len(), 0);
}

#[test]
fn create_subscription_type_blank_rejected() {
    let mut types = SubscriptionTypeRepositoryImpl::new();
    let dto = CreateSubscriptionTypeDto { name: " \t ".to_string() };
    let r = SubscriptionTypeUseCaseImpl::create(&mut types, &dto, 1, 1000);
    assert_eq!(r.err().unwrap().err_type, BAD_REQUEST);
    assert_eq!(types.rows.len(), 0);
}

#[test]
fn update_subscription_type_unset_keeps_name() {
    let mut types = SubscriptionTypeRepositoryImpl::new();
    let dto = CreateSubscriptionTypeDto { name: "Basic".to_string() };
    assert!(SubscriptionTypeUseCaseImpl::create(&mut types, &dto, 1, 1000).is_ok());
    let up = UpdateSubscriptionTypeDto { name: None };
    assert!(SubscriptionTypeUseCaseImpl::update(&mut types, 1, &up, 2000).is_ok());
    assert_eq!(types.rows[0].name, "Basic");
    assert_eq!(types.rows[0].updated_at, 2000);
}

#[test]
fn create_subscription_non_positive_price_rejected() {
    let mut subs = SubscriptionRepositoryImpl::new();
    let mut types = SubscriptionTypeRepositoryImpl::new();
    let t = CreateSubscriptionTypeDto { name: "Basic".to_string() };
    assert!(SubscriptionTypeUseCaseImpl::create(&mut types, &t, 7, 1000).is_ok());
    for price in [0, -5] {
        let dto = CreateSubscriptionDto {
            name: "Gold".to_string(),
            price,
            subscription_type_id: 7,
        };
        let r = SubscriptionUseCaseImpl::create(&mut subs, &types, &dto, 1, 1000);
        let e = r.err().unwrap();
        assert_eq!(e.err_type, BAD_REQUEST);
        assert_eq!(e.message.as_deref(), Some("Invalid subscription price"));
    }
    assert_eq!(subs.rows.len(), 0);
}

#[test]
fn create_subscription_missing_type_rejected() {
    let mut subs = SubscriptionRepositoryImpl::new();
    let types = SubscriptionTypeRepositoryImpl::new();
    let dto = CreateSubscriptionDto {
        name: "Gold".to_string(),
        price: 100,
        subscription_type_id: 7,
    };
    let r = SubscriptionUseCaseImpl::create(&mut subs, &types, &dto, 1, 1000);
    let e = r.err().unwrap();
    assert_eq!(e.err_type, BAD_REQUEST);
    assert_eq!(e.message.as_deref(), Some("Subscription type ID not found"));
    assert_eq!(subs.rows.len(), 0);
}

#[test]
fn created_subscription_retrievable_by_type() {
    let mut subs = SubscriptionRepositoryImpl::new();
    let mut types = SubscriptionTypeRepositoryImpl::new();
    let t = CreateSubscriptionTypeDto { name: "Basic".to_string() };
    assert!(SubscriptionTypeUseCaseImpl::create(&mut types, &t, 7, 1000).is_ok());
    let dto = CreateSubscriptionDto {
        name: "Gold".to_string(),
        price: 100,
        subscription_type_id: 7,
    };
    assert!(SubscriptionUseCaseImpl::create(&mut subs, &types, &dto, 1, 1000).is_ok());
    let by_type = subs.get_by_subscription_type_id(7);
    assert_eq!(by_type.len(), 1);
    assert_eq!(by_type[0].name, "Gold");
    assert_eq!(by_type[0].price, 100);
    assert!(subs.get_by_subscription_type_id(8).is_empty());
}

#[test]
fn subscription_list_scenario() {
    // POST a Gold subscription, then list page 1 of size 10: Gold is there
    // and the total counts it
    let mut subs = SubscriptionRepositoryImpl::new();
    let mut types = SubscriptionTypeRepositoryImpl::new();
    let t = CreateSubscriptionTypeDto { name: "Basic".to_string() };
    assert!(SubscriptionTypeUseCaseImpl::create(&mut types, &t, 7, 1000).is_ok());
    let dto = CreateSubscriptionDto {
        name: "Gold".to_string(),
        price: 100,
        subscription_type_id: 7,
    };
    assert!(SubscriptionUseCaseImpl::create(&mut subs, &types, &dto, 1, 1000).is_ok());
    let (rows, total) = SubscriptionUseCaseImpl::list(&subs, 1, 10).unwrap();
    assert!(total >= 1);
    assert!(rows.iter().any(|s| s.name == "Gold"));
}

#[test]
fn subscription_update_checks_type_reference() {
    let mut subs = SubscriptionRepositoryImpl::new();
    let mut types = SubscriptionTypeRepositoryImpl::new();
    let t = CreateSubscriptionTypeDto { name: "Basic".to_string() };
    assert!(SubscriptionTypeUseCaseImpl::create(&mut types, &t, 7, 1000).is_ok());
    let dto = CreateSubscriptionDto {
        name: "Gold".to_string(),
        price: 100,
        subscription_type_id: 7,
    };
    assert!(SubscriptionUseCaseImpl::create(&mut subs, &types, &dto, 1, 1000).is_ok());
    let up = UpdateSubscriptionDto {
        name: None,
        price: None,
        subscription_type_id: Some(99),
    };
    let r = SubscriptionUseCaseImpl::update(&mut subs, &types, 1, &up, 2000);
    assert_eq!(r.err().unwrap().err_type, BAD_REQUEST);
    assert_eq!(subs.rows[0].subscription_type_id, 7);
}

#[test]
fn subscription_update_unset_fields_keep_values() {
    let mut subs = SubscriptionRepositoryImpl::new();
    let mut types = SubscriptionTypeRepositoryImpl::new();
    let t = CreateSubscriptionTypeDto { name: "Basic".to_string() };
    assert!(SubscriptionTypeUseCaseImpl::create(&mut types, &t, 7, 1000).is_ok());
    let dto = CreateSubscriptionDto {
        name: "Gold".to_string(),
        price: 100,
        subscription_type_id: 7,
    };
    assert!(SubscriptionUseCaseImpl::create(&mut subs, &types, &dto, 1, 1000).is_ok());
    let up = UpdateSubscriptionDto { name: None, price: None, subscription_type_id: None };
    assert!(SubscriptionUseCaseImpl::update(&mut subs, &types, 1, &up, 2000).is_ok());
    assert_eq!(subs.rows[0].name, "Gold");
    assert_eq!(subs.rows[0].price, 100);
    assert_eq!(subs.rows[0].subscription_type_id, 7);
    assert_eq!(subs.rows[0].created_at, 1000);
    assert_eq!(subs.rows[0].updated_at, 2000);
}

#[test]
fn subscription_type_list_joins_subscriptions() {
    let mut subs = SubscriptionRepositoryImpl::new();
    let mut types = SubscriptionTypeRepositoryImpl::new();
    let t = CreateSubscriptionTypeDto { name: "Basic".to_string() };
    assert!(SubscriptionTypeUseCaseImpl::create(&mut types, &t, 7, 1000).is_ok());
    let dto = CreateSubscriptionDto {
        name: "Gold".to_string(),
        price: 100,
        subscription_type_id: 7,
    };
    assert!(SubscriptionUseCaseImpl::create(&mut subs, &types, &dto, 1, 1000).is_ok());
    let (rows, total) = SubscriptionTypeUseCaseImpl::list(&types, &subs, 1, 10).unwrap();
    assert_eq!(total, 1);
    assert_eq!(rows.len(), 1);
    assert_eq!(rows[0].name, "Basic");
    assert_eq!(rows[0].subscriptions.len(), 1);
    assert_eq!(rows[0].subscriptions[0].name, "Gold");
}

#[test]
fn list_rejects_zero_pagination() {
    let types = SubscriptionTypeRepositoryImpl::new();
    let subs = SubscriptionRepositoryImpl::new();
    assert_eq!(
        SubscriptionTypeUseCaseImpl::list(&types, &subs, 0, 10).err().unwrap().err_type,
        BAD_REQUEST
    );
    assert_eq!(
        SubscriptionTypeUseCaseImpl::list(&types, &subs, 1, 0).err().unwrap().err_type,
        BAD_REQUEST
    );
}

#[test]
fn school_create_and_update() {
    let mut schools = SchoolRepositoryImpl::new();
    let dto = CreateSchoolDto {
        name: "North High".to_string(),
        address: None,
        subscription_id: None,
        province_id: Some("11".to_string()),
        city_id: None,
    };
    assert!(
        SchoolUseCaseImpl::create(&mut schools, dto, "school-logo/a.png".to_string(), 1, 1000)
            .is_ok()
    );
    assert_eq!(schools.rows[0].address, "");
    assert_eq!(schools.rows[0].logo_path, "school-logo/a.png");
    let up = UpdateSchoolDto {
        name: None,
        address: Some("1 Main St".to_string()),
        logo_path: None,
        subscription_id: None,
        province_id: None,
        city_id: None,
    };
    assert!(SchoolUseCaseImpl::update(&mut schools, 1, &up, 2000).is_ok());
    assert_eq!(schools.rows[0].name, "North High");
    assert_eq!(schools.rows[0].address, "1 Main St");
    assert_eq!(schools.rows[0].province_id.as_deref(), Some("11"));
    assert_eq!(schools.rows[0].updated_at, 2000);
}

#[test]
fn school_create_blank_name_rejected() {
    let mut schools = SchoolRepositoryImpl::new();
    let dto = CreateSchoolDto {
        name: "  ".to_string(),
        address: None,
        subscription_id: None,
        province_id: None,
        city_id: None,
    };
    let r = SchoolUseCaseImpl::create(&mut schools, dto, "p".to_string(), 1, 1000);
    assert_eq!(r.err().unwrap().err_type, BAD_REQUEST);
    assert_eq!(schools.rows.len(), 0);
}

fn user_dto(email: &str, phone: &str) -> CreateUserDto {
    CreateUserDto {
        name: "Ana".to_string(),
        email: email.to_string(),
        phone_number: phone.to_string(),
        password: "hunter2".to_string(),
        title: None,
        role_id: None,
        school_id: None,
    }
}

#[test]
fn create_user_blank_fields_rejected() {
    let mut users = UserRepositoryImpl::new();
    let roles = RoleRepositoryImpl::new();
    let schools = SchoolRepositoryImpl::new();
    let mut dto = user_dto("a@b.c", "555");
    dto.name = " ".to_string();
    let r = UserUseCaseImpl::create(&mut users, &roles, &schools, &dto, 1, 1000);
    let e = r.err().unwrap();
    assert_eq!(e.err_type, BAD_REQUEST);
    assert_eq!(e.message.as_deref(), Some("Missing required fields"));
    assert_eq!(users.rows.len(), 0);
}

#[test]
fn create_user_missing_role_reference_rejected() {
    let mut users = UserRepositoryImpl::new();
    let roles = RoleRepositoryImpl::new();
    let schools = SchoolRepositoryImpl::new();
    let mut dto = user_dto("a@b.c", "555");
    dto.role_id = Some(42);
    let r = UserUseCaseImpl::create(&mut users, &roles, &schools, &dto, 1, 1000);
    assert_eq!(r.err().unwrap().err_type, BAD_REQUEST);
    assert_eq!(users.rows.len(), 0);
}

#[test]
fn create_user_hashes_password() {
    let mut users = UserRepositoryImpl::new();
    let roles = RoleRepositoryImpl::new();
    let schools = SchoolRepositoryImpl::new();
    let dto = user_dto("a@b.c", "555");
    let u = UserUseCaseImpl::create(&mut users, &roles, &schools, &dto, 1, 1000).unwrap();
    assert_eq!(u.email, "a@b.c");
    assert!(matches!(u.status, UserStatus::Pending));
    // the stored password is the bcrypt hash, never the plaintext
    assert_ne!(users.rows[0].password, "hunter2");
    assert!(!users.rows[0].password.is_empty());
}

#[test]
fn create_user_duplicate_email_rejected() {
    let mut users = UserRepositoryImpl::new();
    let roles = RoleRepositoryImpl::new();
    let schools = SchoolRepositoryImpl::new();
    assert!(
        UserUseCaseImpl::create(&mut users, &roles, &schools, &user_dto("a@b.c", "555"), 1, 1000)
            .is_ok()
    );
    let r =
        UserUseCaseImpl::create(&mut users, &roles, &schools, &user_dto("a@b.c", "556"), 2, 2000);
    assert_eq!(r.err().unwrap().err_type, BAD_REQUEST);
    assert_eq!(users.rows.len(), 1);
}

#[test]
fn update_user_all_unset_keeps_everything_but_timestamp() {
    let mut users = UserRepositoryImpl::new();
    let roles = RoleRepositoryImpl::new();
    let schools = SchoolRepositoryImpl::new();
    assert!(
        UserUseCaseImpl::create(&mut users, &roles, &schools, &user_dto("a@b.c", "555"), 1, 1000)
            .is_ok()
    );
    let stored_password = users.rows[0].password.clone();
    let up = UpdateUserDto {
        name: None,
        email: None,
        phone_number: None,
        password: None,
        title: None,
        status: None,
        role_id: None,
        school_id: None,
    };
    let u = UserUseCaseImpl::update(&mut users, &roles, &schools, 1, &up, 2000).unwrap();
    assert_eq!(u.name, "Ana");
    assert_eq!(u.email, "a@b.c");
    assert_eq!(u.phone_number, "555");
    assert_eq!(users.rows[0].password, stored_password);
    assert_eq!(users.rows[0].created_at, 1000);
    assert_eq!(users.rows[0].updated_at, 2000);
}

#[test]
fn fresh_identifiers_allow_repeated_creates() {
    // the self-stamping variant draws its own identifier and clock
    let mut roles = RoleRepositoryImpl::new();
    assert!(RoleUseCaseImpl::create_now(&mut roles, &role_dto("admin")).is_ok());
    assert!(RoleUseCaseImpl::create_now(&mut roles, &role_dto("editor")).is_ok());
    assert_eq!(roles.rows.len(), 2);
    assert_ne!(roles.rows[0].id, roles.rows[1].id);
}

#[test]
fn list_pages_slice_in_stored_order() {
    let mut roles = RoleRepositoryImpl::new();
    for (i, name) in ["a", "b", "c", "d", "e"].iter().enumerate() {
        let id = (i + 1) as u128;
        assert!(RoleUseCaseImpl::create(&mut roles, &role_dto(name), id, 1000).is_ok());
    }
    let (page1, total) = RoleUseCaseImpl::list(&roles, 1, 2).unwrap();
    assert_eq!(total, 5);
    assert_eq!(page1.iter().map(|r| r.name.as_str()).collect::<Vec<_>>(), vec!["a", "b"]);
    let (page3, _) = RoleUseCaseImpl::list(&roles, 3, 2).unwrap();
    assert_eq!(page3.iter().map(|r| r.name.as_str()).collect::<Vec<_>>(), vec!["e"]);
    let (beyond, _) = RoleUseCaseImpl::list(&roles, 9, 2).unwrap();
    assert!(beyond.is_empty());
}

#[test]
fn update_user_cannot_steal_contact() {
    let mut users = UserRepositoryImpl::new();
    let roles = RoleRepositoryImpl::new();
    let schools = SchoolRepositoryImpl::new();
    assert!(
        UserUseCaseImpl::create(&mut users, &roles, &schools, &user_dto("a@b.c", "555"), 1, 1000)
            .is_ok()
    );
    assert!(
        UserUseCaseImpl::create(&mut users, &roles, &schools, &user_dto("z@b.c", "556"), 2, 1000)
            .is_ok()
    );
    let up = UpdateUserDto {
        name: None,
        email: Some("a@b.c".to_string()),
        phone_number: None,
        password: None,
        title: None,
        status: None,
        role_id: None,
        school_id: None,
    };
    let r = UserUseCaseImpl::update(&mut users, &roles, &schools, 2, &up, 2000);
    assert_eq!(r.err().unwrap().err_type, BAD_REQUEST);
    assert_eq!(users.rows[1].email, "z@b.c");
}

#[test]
fn create_user_defaults_title_and_references() {
    let mut users = UserRepositoryImpl::new();
    let roles = RoleRepositoryImpl::new();
    let schools = SchoolRepositoryImpl::new();
    let u = UserUseCaseImpl::create(&mut users, &roles, &schools, &user_dto("a@b.c", "555"), 1, 1000)
        .unwrap();
    assert_eq!(u.title, "");
    assert_eq!(u.role_id, 0);
    assert_eq!(u.school_id, 0);
}

#[test]
fn subscription_update_trims_given_name() {
    let mut subs = SubscriptionRepositoryImpl::new();
    let mut types = SubscriptionTypeRepositoryImpl::new();
    let t = CreateSubscriptionTypeDto { name: "Basic".to_string() };
    assert!(SubscriptionTypeUseCaseImpl::create(&mut types, &t, 7, 1000).is_ok());
    let dto = CreateSubscriptionDto {
        name: "Gold".to_string(),
        price: 100,
        subscription_type_id: 7,
    };
    assert!(SubscriptionUseCaseImpl::create(&mut subs, &types, &dto, 1, 1000).is_ok());
    let up = UpdateSubscriptionDto {
        name: Some("  Silver ".to_string()),
        price: Some(50),
        subscription_type_id: None,
    };
    assert!(SubscriptionUseCaseImpl::update(&mut subs, &types, 1, &up, 2000).is_ok());
    assert_eq!(subs.rows[0].name, "Silver");
    assert_eq!(subs.rows[0].price, 50);
}

#[test]
fn delete_subscription_missing_id_unchanged() {
    let mut subs = SubscriptionRepositoryImpl::new();
    let mut types = SubscriptionTypeRepositoryImpl::new();
    let t = CreateSubscriptionTypeDto { name: "Basic".to_string() };
    assert!(SubscriptionTypeUseCaseImpl::create(&mut types, &t, 7, 1000).is_ok());
    let dto = CreateSubscriptionDto {
        name: "Gold".to_string(),
        price: 100,
        subscription_type_id: 7,
    };
    assert!(SubscriptionUseCaseImpl::create(&mut subs, &types, &dto, 1, 1000).is_ok());
    assert!(SubscriptionUseCaseImpl::delete(&mut subs, 999).is_ok());
    assert_eq!(subs.rows.len(), 1);
}

#[test]
fn schools_retrievable_by_subscription() {
    let mut schools = SchoolRepositoryImpl::new();
    let dto = CreateSchoolDto {
        name: "North High".to_string(),
        address: None,
        subscription_id: Some(77),
        province_id: None,
        city_id: None,
    };
    assert!(SchoolUseCaseImpl::create(&mut schools, dto, "p.png".to_string(), 1, 1000).is_ok());
    let attached = schools.get_by_subscription_id(77);
    assert_eq!(attached.len(), 1);
    assert_eq!(attached[0].name, "North High");
    assert!(schools.get_by_subscription_id(78).is_empty());
}
