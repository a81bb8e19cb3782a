use tiberius_pool::fixture::MSSQL;

#[test]
fn image_name_and_tag() {
    let img = MSSQL::default();
    assert_eq!(img.name(), "mcr.microsoft.com/mssql/server");
    assert_eq!(img.tag(), "2017-CU12");
}

#[test]
fn ready_condition_is_the_recovery_message() {
    let img = MSSQL::default();
    let conds = img.ready_conditions();
    assert_eq!(conds.len(), 1);
    assert_eq!(
        conds[0],
        "Recovery is complete. This is an informational message only. No user action is required."
    );
}

#[test]
fn env_vars_hold_password_and_eula() {
    let img = MSSQL::default();
    let vars = img.env_vars();
    assert_eq!(vars.len(), 2);
    assert_eq!(vars[0].0, "SA_PASSWORD");
    assert_eq!(vars[0].1, "ThePassword1!");
    assert_eq!(vars[1].0, "ACCEPT_EULA");
    assert_eq!(vars[1].1, "Y");
}
