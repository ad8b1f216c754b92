use vault_keeper::error::ApiError;
use vault_keeper::guards::{AuthKey, Email, NewAuthKey, Vault};
use vault_keeper::models::User;
use vault_keeper::repository::{
    check_email_exists, check_user_exists, first_step, step_after_read, step_after_write, Operation, Query,
    Step, StoreFailure, Write,
};

const K1: &str = "1111111111111111111111111111111111111111111111111111111111111111";
const K2: &str = "2222222222222222222222222222222222222222222222222222222222222222";
const K3: &str = "0123456789abcdef0123456789abcdef0123456789abcdef0123456789abcdef";

/// A user table in memory; `fail_writes` makes it refuse every write.
struct Table {
    rows: Vec<User>,
    next_id: i32,
    fail_reads: bool,
    fail_writes: bool,
}

fn copy(u: &User) -> User {
    User { id: u.id, email: u.email.clone(), key: u.key.clone(), vault: u.vault.clone() }
}

impl Table {
    fn new() -> Table {
        Table { rows: Vec::new(), next_id: 1, fail_reads: false, fail_writes: false }
    }

    fn read(&self, q: &Query) -> Result<Vec<User>, StoreFailure> {
        if self.fail_reads {
            return Err(StoreFailure);
        }
        Ok(self
            .rows
            .iter()
            .filter(|u| match q {
                Query::ByKey(k) => &u.key == k,
                Query::ByEmail(e) => &u.email == e,
            })
            .map(copy)
            .collect())
    }

    fn write(&mut self, w: Write) -> Result<(), StoreFailure> {
        if self.fail_writes {
            return Err(StoreFailure);
        }
        match w {
            Write::Insert(n) => {
                self.rows.push(User { id: self.next_id, email: n.email, key: n.key, vault: n.vault });
                self.next_id += 1;
            }
            Write::SetVault { key, vault } => {
                for u in self.rows.iter_mut().filter(|u| u.key == key) {
                    u.vault = vault.clone();
                }
            }
            Write::SetKeyAndVault { old_key, new_key, vault } => {
                for u in self.rows.iter_mut().filter(|u| u.key == old_key) {
                    u.key = new_key.clone();
                    u.vault = vault.clone();
                }
            }
        }
        Ok(())
    }

    fn run(&mut self, op: Operation) -> Result<String, ApiError> {
        let q = match first_step(&op) {
            Step::Read(q) => q,
            _ => panic!("an operation starts with a read"),
        };
        let found = self.read(&q);
        match step_after_read(op, found) {
            Step::Reply(r) => r,
            Step::Write(w) => {
                let written = self.write(w);
                match step_after_write(&written) {
                    Step::Reply(r) => r,
                    _ => panic!("a write is followed by a reply"),
                }
            }
            Step::Read(_) => panic!("one read per operation"),
        }
    }

    fn snapshot(&self) -> Vec<(i32, String, String, String)> {
        self.rows.iter().map(|u| (u.id, u.email.clone(), u.key.clone(), u.vault.clone())).collect()
    }
}

fn key(s: &str) -> AuthKey {
    AuthKey::from_header(Some(s)).ok().unwrap()
}

fn new_key(s: &str) -> NewAuthKey {
    NewAuthKey::from_header(Some(s)).ok().unwrap()
}

fn email(s: &str) -> Email {
    Email::from_header(Some(s)).ok().unwrap()
}

fn vault(s: &str) -> Vault {
    Vault::from_header(Some(s)).ok().unwrap()
}

fn user(id: i32, e: &str, k: &str, v: &str) -> User {
    User { id, email: e.to_string(), key: k.to_string(), vault: v.to_string() }
}

#[test]
fn register_then_authenticate() {
    let mut t = Table::new();
    assert_eq!(t.run(Operation::Authenticate(key(K1))).unwrap(), "0");
    assert_eq!(t.run(Operation::Register(email("a@b.com"), key(K1), vault("aa"))).unwrap(), "Success");
    assert_eq!(t.run(Operation::Authenticate(key(K1))).unwrap(), "1");
    assert_eq!(t.rows.len(), 1);
    assert_eq!(t.rows[0].key, K1);
}

#[test]
fn register_same_email_twice() {
    let mut t = Table::new();
    t.run(Operation::Register(email("a@b.com"), key(K1), vault("aa"))).unwrap();
    let before = t.snapshot();
    let r = t.run(Operation::Register(email("a@b.com"), key(K2), vault("bb")));
    assert!(matches!(r, Err(ApiError::UserExists)));
    assert_eq!(t.snapshot(), before);
    assert_eq!(t.run(Operation::Authenticate(key(K2))).unwrap(), "0");
}

#[test]
fn get_vault_before_and_after_registration() {
    let mut t = Table::new();
    assert!(matches!(t.run(Operation::GetVault(key(K1))), Err(ApiError::UserNoExists)));
    t.run(Operation::Register(email("a@b.com"), key(K1), vault("deadbeef"))).unwrap();
    assert_eq!(t.run(Operation::GetVault(key(K1))).unwrap(), "deadbeef");
}

#[test]
fn rotate_key_and_vault() {
    let mut t = Table::new();
    t.run(Operation::Register(email("a@b.com"), key(K1), vault("aa"))).unwrap();
    let r = t.run(Operation::UpdateKey(key(K1), new_key(K2), vault("bbcc")));
    assert_eq!(r.unwrap(), "Success");
    assert_eq!(t.run(Operation::Authenticate(key(K1))).unwrap(), "0");
    assert_eq!(t.run(Operation::Authenticate(key(K2))).unwrap(), "1");
    assert_eq!(t.run(Operation::GetVault(key(K2))).unwrap(), "bbcc");
    assert_eq!(t.rows.len(), 1);
}

#[test]
fn rotate_key_failed_write_leaves_table() {
    let mut t = Table::new();
    t.run(Operation::Register(email("a@b.com"), key(K1), vault("aa"))).unwrap();
    let before = t.snapshot();
    t.fail_writes = true;
    let r = t.run(Operation::UpdateKey(key(K1), new_key(K2), vault("bb")));
    assert!(matches!(r, Err(ApiError::DatabaseWrite)));
    assert_eq!(t.snapshot(), before);
    t.fail_writes = false;
    assert_eq!(t.run(Operation::Authenticate(key(K1))).unwrap(), "1");
    assert_eq!(t.run(Operation::GetVault(key(K1))).unwrap(), "aa");
}

#[test]
fn rotate_unknown_key() {
    let mut t = Table::new();
    let r = t.run(Operation::UpdateKey(key(K1), new_key(K2), vault("bb")));
    assert!(matches!(r, Err(ApiError::UserNoExists)));
    assert!(t.rows.is_empty());
}

#[test]
fn update_vault_of_registered_user() {
    let mut t = Table::new();
    assert!(matches!(t.run(Operation::UpdateVault(key(K1), vault("bb"))), Err(ApiError::UserNoExists)));
    t.run(Operation::Register(email("a@b.com"), key(K1), vault("aa"))).unwrap();
    assert_eq!(t.run(Operation::UpdateVault(key(K1), vault("0102"))).unwrap(), "Success");
    assert_eq!(t.run(Operation::GetVault(key(K1))).unwrap(), "0102");
    assert_eq!(t.rows[0].key, K1);
}

#[test]
fn end_to_end_scenario() {
    let mut t = Table::new();
    assert_eq!(t.run(Operation::Register(email("u@ex.com"), key(K1), vault("aa"))).unwrap(), "Success");
    assert_eq!(t.run(Operation::Authenticate(key(K1))).unwrap(), "1");
    assert_eq!(t.run(Operation::GetVault(key(K1))).unwrap(), "aa");
    assert_eq!(t.run(Operation::UpdateKey(key(K1), new_key(K2), vault("bb"))).unwrap(), "Success");
    assert_eq!(t.run(Operation::Authenticate(key(K1))).unwrap(), "0");
    assert_eq!(t.run(Operation::Authenticate(key(K2))).unwrap(), "1");
    assert_eq!(t.run(Operation::GetVault(key(K2))).unwrap(), "bb");
}

#[test]
fn failed_read_is_database_read() {
    let mut t = Table::new();
    t.fail_reads = true;
    assert!(matches!(t.run(Operation::Authenticate(key(K1))), Err(ApiError::DatabaseRead)));
    assert!(matches!(t.run(Operation::GetVault(key(K1))), Err(ApiError::DatabaseRead)));
    assert!(matches!(
        t.run(Operation::Register(email("a@b.com"), key(K1), vault("aa"))),
        Err(ApiError::DatabaseRead)
    ));
    assert!(t.rows.is_empty());
}

#[test]
fn duplicate_rows_are_internal_error() {
    let mut t = Table::new();
    t.rows.push(user(1, "a@b.com", K1, "aa"));
    t.rows.push(user(2, "c@d.com", K1, "bb"));
    t.rows.push(user(3, "a@b.com", K2, "cc"));
    assert!(matches!(t.run(Operation::Authenticate(key(K1))), Err(ApiError::InternalError)));
    assert!(matches!(t.run(Operation::GetVault(key(K1))), Err(ApiError::InternalError)));
    assert!(matches!(t.run(Operation::UpdateVault(key(K1), vault("ee"))), Err(ApiError::InternalError)));
    assert!(matches!(
        t.run(Operation::Register(email("a@b.com"), key(K1), vault("aa"))),
        Err(ApiError::InternalError)
    ));
    assert_eq!(t.rows.len(), 3);
}

#[test]
fn lookups_decide_on_row_count() {
    assert!(matches!(check_user_exists(&Ok(Vec::new())), Ok(false)));
    assert!(matches!(check_user_exists(&Ok(vec![user(1, "a@b.com", K1, "")])), Ok(true)));
    assert!(matches!(check_user_exists(&Err(StoreFailure)), Err(ApiError::DatabaseRead)));
    assert!(matches!(check_email_exists(&Ok(vec![user(1, "a@b.com", K1, "")])), Ok(true)));
    assert!(matches!(
        check_email_exists(&Ok(vec![user(1, "a@b.com", K1, ""), user(2, "a@b.com", K2, "")])),
        Err(ApiError::InternalError)
    ));
}

#[test]
fn first_read_of_each_operation() {
    match first_step(&Operation::Register(email("a@b.com"), key(K1), vault("aa"))) {
        Step::Read(Query::ByEmail(e)) => assert_eq!(e, "a@b.com"),
        _ => panic!("registration reads by email"),
    }
    match first_step(&Operation::GetVault(key(&K3.to_uppercase()))) {
        Step::Read(Query::ByKey(k)) => assert_eq!(k, K3),
        _ => panic!("a vault request reads by key"),
    }
}
