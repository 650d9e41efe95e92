use shelby::accounting::{Account, AccountSummary, Amount, Category};
use shelby::config::{new_secret, parse_secret, secret_key, ConfigError};
use shelby::database::{Database, DefaultGenerator, Insertable, PrimaryKey};
use shelby::document::Document;
use shelby::frontend::tables::prefix_before;
use shelby::frontend::{
    group_summaries, CategoryAccounts, CostCenterAccounts, RenderableDatabaseEntry,
};
use shelby::person::Person;
use shelby::user::{PasswordHash, User, UserError};
use shelby::util::{DocumentForm, FlexibleInput, MappingError, PdfOutput};
use shelby::{Date, Limit, Order, Pagination, RequestError};

#[test]
fn test_url() {
    // Check the URL for a single example.
    assert_eq!(User::url(), "/users");
}

#[test]
fn test_prefix_before() {
    assert_eq!(prefix_before("/persons/new", "/new"), "/persons");
    assert_eq!(prefix_before("/new/new", "/new"), "");
    assert_eq!(prefix_before("/persons", "/new"), "");
    assert_eq!(prefix_before("ab", "abc"), "");
    assert_eq!(prefix_before("abc", ""), "");
    assert_eq!(prefix_before("a/ne/new", "/new"), "a/ne");
}

#[test]
fn test_table_of_accounts() {
    let database = Database::in_memory().expect("valid database");
    let category = Category {
        description: String::from("Assets"),
    }
    .insert(&database)
    .expect("valid category");
    for code in [1800u32, 1200, 1000] {
        Account {
            code,
            category,
            description: format!("Account {}", code),
        }
        .insert(&database)
        .expect("valid account");
    }
    let page = Pagination::<Account>::new("code", 0, Limit::from(2), Order::Ascending)
        .expect("valid pagination");
    let table = Account::prepare_rendering_all(&database, page).expect("valid table");
    assert_eq!(
        table.0,
        vec![
            vec![
                String::from("1000"),
                String::from("Assets"),
                String::from("Account 1000")
            ],
            vec![
                String::from("1200"),
                String::from("Assets"),
                String::from("Account 1200")
            ],
        ]
    );
    assert_eq!(
        table.next_url(),
        Some(String::from("/accounts?column=code&order=ASC&limit=2&offset=2"))
    );
    assert_eq!(table.previous_url(), None);
    assert_eq!(Account::title(), "Accounts");
    assert_eq!(Account::headers(), ["Code", "Category", "Description"]);
    let page = table.1.next(2).expect("a next page");
    let table = Account::prepare_rendering_all(&database, page).expect("valid table");
    assert_eq!(table.0.len(), 1);
    assert_eq!(table.next_url(), None);
    assert_eq!(
        table.previous_url(),
        Some(String::from("/accounts?column=code&order=ASC&limit=2&offset=0"))
    );
}

#[test]
fn test_table_of_documents() {
    let database = Database::in_memory().expect("valid database");
    let document = Document::create_default(&database).expect("valid document");
    let key = document.insert(&database).expect("valid insert");
    let table = Document::prepare_rendering_all(&database, Pagination::default())
        .expect("valid table");
    let today = Date::today().to_string();
    assert_eq!(
        table.0,
        vec![vec![
            format!("<a href=\"{}/pdf\">PDF</a>", key.to_string()),
            today.clone(),
            today,
            String::new(),
            String::new(),
            String::new(),
        ]]
    );
    assert_eq!(
        PdfOutput::new(&database, key),
        Ok(PdfOutput(Vec::new()))
    );
    assert!(matches!(
        PdfOutput::new(&database, PrimaryKey::from(99)),
        Err(RequestError::DatabaseError(_))
    ));
}

fn summary(cost_center: &str, category: &str, account: &str, amount: i64) -> AccountSummary {
    AccountSummary {
        account: String::from(account),
        cost_center: String::from(cost_center),
        category: String::from(category),
        amount: Amount(amount),
    }
}

#[test]
fn test_dashboard() {
    let summaries = vec![
        summary("Club", "Income", "Fees", 100),
        summary("Club", "Costs", "Rent", -70),
        summary("Youth", "Income", "Fees", 30),
        summary("Club", "Income", "Gifts", 5),
    ];
    assert_eq!(
        group_summaries(&summaries),
        vec![
            CostCenterAccounts {
                cost_center: String::from("Club"),
                categories: vec![
                    CategoryAccounts {
                        category: String::from("Income"),
                        accounts: vec![
                            (String::from("Fees"), Amount(100)),
                            (String::from("Gifts"), Amount(5))
                        ],
                    },
                    CategoryAccounts {
                        category: String::from("Costs"),
                        accounts: vec![(String::from("Rent"), Amount(-70))],
                    },
                ],
            },
            CostCenterAccounts {
                cost_center: String::from("Youth"),
                categories: vec![CategoryAccounts {
                    category: String::from("Income"),
                    accounts: vec![(String::from("Fees"), Amount(30))],
                }],
            },
        ]
    );
    assert_eq!(group_summaries(&vec![]), vec![]);
}

#[test]
fn test_secret_key() {
    let text = "AAECAwQFBgcICQoLDA0ODxAREhMUFRYXGBkaGxwdHh8=";
    let secret: Vec<u8> = (0u8..32).collect();
    assert_eq!(parse_secret(text).map(|s| s.to_vec()), Ok(secret.clone()));
    assert_eq!(parse_secret("AAEC"), Err(ConfigError::InvalidSecretKey));
    assert_eq!(parse_secret("no base64!"), Err(ConfigError::InvalidSecretKey));
    assert_eq!(
        secret_key(Some(text)).map(|(s, t)| (s.to_vec(), t)),
        Ok((secret, None))
    );
    assert_eq!(
        secret_key(Some("")),
        Err(ConfigError::InvalidSecretKey)
    );
    let (bytes, encoded) = new_secret().expect("random bytes");
    assert_eq!(parse_secret(&encoded), Ok(bytes));
    let (bytes, encoded) = secret_key(None).expect("random bytes");
    assert_eq!(parse_secret(&encoded.expect("a text")), Ok(bytes));
    assert_eq!(
        ConfigError::AssetsNotFound.to_string(),
        "env variable SHELBY_ASSETS does not point to valid asset directory"
    );
    assert_eq!(
        ConfigError::RandomNotAvailable.to_string(),
        "unable to get random data for secret key"
    );
    assert_eq!(
        ConfigError::InvalidSecretKey.to_string(),
        "the specified secret key is invalid"
    );
}

fn form() -> DocumentForm {
    DocumentForm {
        document: vec![1, 2, 3],
        processed_by: String::from("/users/4"),
        from_person: String::from("5"),
        to_person: String::from("/persons/6"),
        recieved: String::from("2024-02-18"),
        processed: String::from("2024-02-19"),
        description: String::from("Invoice"),
    }
}

#[test]
fn test_document_form() {
    let today = Date::from_ymd(2024, 2, 19).expect("valid date");
    assert_eq!(
        Document::try_map_on(form(), today),
        Ok(Document {
            document: vec![1, 2, 3],
            processed_by: PrimaryKey::from(4),
            from_person: PrimaryKey::from(5),
            to_person: PrimaryKey::from(6),
            recieved: Date::from_ymd(2024, 2, 18).expect("valid date"),
            processed: today,
            description: String::from("Invoice"),
        })
    );
    assert_eq!(
        Document::try_map_on(form(), Date::from_ymd(2024, 2, 18).expect("valid date")),
        Err(MappingError("'processed' is not a valid date'"))
    );
    let wrong = DocumentForm {
        recieved: String::from("18.02.2024"),
        processed: String::from("x"),
        ..form()
    };
    assert_eq!(
        Document::try_map_on(wrong, today),
        Err(MappingError("'recieved' is not a valid date'"))
    );
    let wrong = DocumentForm {
        processed_by: String::from("/persons/4"),
        ..form()
    };
    assert_eq!(
        Document::try_map_on(wrong, today),
        Err(MappingError("'process_by' is not a valid primary key'"))
    );
    let wrong = DocumentForm {
        from_person: String::from("five"),
        to_person: String::from("six"),
        ..form()
    };
    assert_eq!(
        Document::try_map_on(wrong, today),
        Err(MappingError("'from_person' is not a valid primary key'"))
    );
    let wrong = DocumentForm {
        to_person: String::from("/users/6"),
        ..form()
    };
    let error = Document::try_map_on(wrong, today).expect_err("a wrong table");
    assert_eq!(error, MappingError("'to_person' is not a valid primary key'"));
    assert_eq!(error.status(), 400);
    assert_eq!(error.to_string(), "'to_person' is not a valid primary key'");
    assert!(Document::try_map(form()).is_ok());
    assert_eq!(FlexibleInput(form()).into_inner(), form());
}

#[test]
fn test_user_from_parts() {
    let date = Date::today();
    let user = User::from_parts(String::from("Max"), None, Some(String::from("secret")), true, date, None)
        .expect("valid user");
    assert!(user.password_hash.matches("Max", "secret"));
    assert_eq!(user.username, "Max");
    let hash = PasswordHash::new("Max", "other");
    let user = User::from_parts(String::from("Max"), Some(hash), None, false, date, Some(PrimaryKey::<Person>::from(2)))
        .expect("valid user");
    assert_eq!(user.password_hash, hash);
    assert_eq!(user.related_to, Some(PrimaryKey::from(2)));
    assert!(!user.active);
    let user = User::from_parts(String::from("Max"), None, None, true, date, None)
        .expect("valid user");
    assert!(!user.password_hash.is_valid());
    let error = User::from_parts(String::from("Max"), Some(hash), Some(String::from("secret")), true, date, None)
        .expect_err("both a password and a hash");
    assert_eq!(error, UserError::AmbiguousPassword);
    assert_eq!(
        error.to_string(),
        "'password' and 'password_hash' could not be used together"
    );
}
