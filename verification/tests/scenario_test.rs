use std::collections::HashMap;

use bike_shopping_backend::dto::auth::{AuthResponse, LoginDto, RegisterDto};
use bike_shopping_backend::dto::product::CreateProductDto;
use bike_shopping_backend::dto::validation::validation_error;
use bike_shopping_backend::errors::{HttpError, StorageError};
use bike_shopping_backend::middleware::auth::{AuthOutcome, JwtMiddleware};
use bike_shopping_backend::middleware::permissions::PermissionCheck;
use bike_shopping_backend::models::product::Product;
use bike_shopping_backend::models::user::User;
use bike_shopping_backend::services::auth_service::{login, new_user, register};
use bike_shopping_backend::services::product_service::{
    create_product, get_most_advantageous, most_advantageous_key, product_changed, product_key,
    refill, CacheReply, Lookup, ProductChange,
};
use bike_shopping_backend::services::user_service::{delete_user, get_all_users, me, user_key};
use bike_shopping_backend::utils::jwt::TokenConfig;
use bike_shopping_backend::{AppErrors, Role};

/// A storage in memory, with a unique index on the users' emails.
struct Storage {
    users: Vec<User>,
    products: Vec<Product>,
    best_lookups: usize,
}

impl Storage {
    fn new() -> Storage {
        Storage { users: Vec::new(), products: Vec::new(), best_lookups: 0 }
    }

    fn insert_user(&mut self, user: &User) -> Result<(), StorageError> {
        if self.users.iter().any(|u| u.email == user.email) {
            return Err(StorageError {
                write_code: Some(11000),
                detail: format!("E11000 duplicate key error: email {}", user.email),
            });
        }
        self.users.push(user.clone());
        Ok(())
    }

    fn user_by_email(&self, email: &str) -> Result<Option<User>, StorageError> {
        Ok(self.users.iter().find(|u| u.email == email).cloned())
    }

    fn user_by_key(&self, key: u128) -> Result<Option<User>, StorageError> {
        Ok(self.users.iter().find(|u| u._id == key).cloned())
    }

    fn delete_user(&mut self, key: u128) -> Result<u64, StorageError> {
        let before = self.users.len();
        self.users.retain(|u| u._id != key);
        Ok((before - self.users.len()) as u64)
    }

    fn best_product(&mut self) -> Result<Option<Product>, StorageError> {
        self.best_lookups += 1;
        let mut best: Option<&Product> = None;
        for product in &self.products {
            if best.map_or(true, |b| product.discount > b.discount) {
                best = Some(product);
            }
        }
        Ok(best.cloned())
    }
}

/// A cache in memory that holds names of products under its keys.
struct Cache {
    held: HashMap<String, (Product, u64)>,
    up: bool,
}

impl Cache {
    fn new() -> Cache {
        Cache { held: HashMap::new(), up: true }
    }

    fn get(&self, key: &str) -> CacheReply {
        if !self.up {
            return CacheReply::Unavailable;
        }
        match self.held.get(key) {
            Some((product, _)) => CacheReply::Hit(product.clone()),
            None => CacheReply::Absent,
        }
    }

    fn set(&mut self, key: String, product: Product, ttl_seconds: u64) {
        if self.up {
            self.held.insert(key, (product, ttl_seconds));
        }
    }

    fn delete(&mut self, key: &str) {
        if self.up {
            self.held.remove(key);
        }
    }
}

struct Shop {
    config: TokenConfig,
    storage: Storage,
    cache: Cache,
}

impl Shop {
    fn new() -> Shop {
        Shop {
            config: TokenConfig::new("scenario secret".to_string(), 60, 30),
            storage: Storage::new(),
            cache: Cache::new(),
        }
    }

    fn register(&mut self, name: &str, email: &str, password: &str) -> Result<AuthResponse, HttpError> {
        let data = RegisterDto {
            email: email.to_string(),
            password: password.to_string(),
            name: name.to_string(),
        };
        let broken = data.validate();
        if !broken.is_empty() {
            return Err(validation_error(&broken));
        }
        let user = new_user(&data).map_err(|e| e.error_response())?;
        let stored = self.storage.insert_user(&user);
        register(&self.config, user, stored).map_err(|e| e.error_response())
    }

    fn login(&self, email: &str, password: &str) -> Result<AuthResponse, HttpError> {
        let data = LoginDto { email: email.to_string(), password: password.to_string() };
        let broken = data.validate();
        if !broken.is_empty() {
            return Err(validation_error(&broken));
        }
        let found = self.storage.user_by_email(email);
        login(&self.config, &data, found).map_err(|e| e.error_response())
    }

    fn subject(&self, guard: Option<Role>, token: &str) -> Result<String, HttpError> {
        let door = JwtMiddleware::new(self.config.clone());
        let guard = guard.map(PermissionCheck::new);
        let header = format!("Bearer {}", token);
        match door.authorize(guard.as_ref(), Some(&header)) {
            AuthOutcome::Authenticated(claims) => Ok(claims.sub),
            AuthOutcome::Rejected(answer) => Err(answer),
        }
    }

    fn delete_me(&mut self, token: &str) -> Result<String, HttpError> {
        let subject = self.subject(None, token)?;
        let key = user_key(&subject).map_err(|e| e.error_response())?;
        let deleted = self.storage.delete_user(key);
        delete_user(deleted).map_err(|e| e.error_response())
    }

    fn add_product(&mut self, name: &str, discount: u8) -> String {
        let data = CreateProductDto {
            name: name.to_string(),
            price: 100,
            description: "A product".to_string(),
            images: vec![],
            discount,
            category: 1,
        };
        assert!(data.validate().is_empty());
        let product = create_product(&data);
        self.storage.products.push(product);
        self.changed(ProductChange::Create)
    }

    fn changed(&mut self, change: ProductChange) -> String {
        let done = product_changed(change, Ok(())).unwrap();
        self.cache.delete(&done.clear_key);
        done.message
    }

    fn most_advantageous(&mut self) -> Result<Product, AppErrors> {
        match get_most_advantageous(self.cache.get(&most_advantageous_key())) {
            Lookup::Answer(product) => Ok(product),
            Lookup::AskStorage => {
                let fill = refill(self.storage.best_product())?;
                self.cache.set(fill.key, fill.product.clone(), fill.ttl_seconds);
                Ok(fill.product)
            }
        }
    }
}

#[test]
fn test_scenario_register_answers_with_tokens_and_without_password() {
    let mut shop = Shop::new();

    let answer = shop.register("John Doe", "john@example.com", "SecurePass123!").unwrap();

    assert!(!answer.access_token.is_empty());
    assert!(!answer.refresh_token.is_empty());
    assert_eq!(answer.user.name, "John Doe");
    assert_eq!(answer.user.email, "john@example.com");
    assert_eq!(answer.user.role, Role::User);
    assert_eq!(answer.user.role.name(), "User");
    assert_eq!(answer.user.id.len(), 36);
    let body = format!("{:?}", answer.user);
    assert!(!body.contains("password"), "Password should not be returned");
    assert!(!body.contains("SecurePass123!"), "Password should not be returned");

    assert_eq!(shop.storage.users.len(), 1, "User should be in database");
    assert_ne!(shop.storage.users[0].password, "SecurePass123!");
    assert_eq!(shop.subject(None, &answer.access_token).unwrap(), answer.user.id);
}

#[test]
fn test_scenario_register_duplicate_email_is_a_conflict() {
    let mut shop = Shop::new();
    let first = shop.register("John Doe", "john@example.com", "SecurePass123!").unwrap();
    let stored = shop.storage.users[0].clone();

    let second = shop.register("Johnny", "john@example.com", "AnotherPass456!").unwrap_err();

    assert_eq!(second.status, 409);
    assert_eq!(second.body.error, "duplicate_key");
    assert_eq!(shop.storage.users.len(), 1);
    assert_eq!(shop.storage.users[0]._id, stored._id);
    assert_eq!(shop.storage.users[0].name, "John Doe");
    assert_eq!(shop.storage.users[0].password, stored.password);
    assert!(shop.login("john@example.com", "SecurePass123!").is_ok());
    assert_eq!(shop.subject(None, &first.access_token).unwrap(), first.user.id);
}

#[test]
fn test_scenario_register_invalid_data() {
    let mut shop = Shop::new();

    let answer = shop.register("John Doe", "john@example.com", "").unwrap_err();

    assert_eq!(answer.status, 400);
    assert_eq!(answer.body.error, "validation_error");
    assert!(shop.storage.users.is_empty());
}

#[test]
fn test_scenario_login() {
    let mut shop = Shop::new();
    let registered = shop.register("John Doe", "john@example.com", "SecurePass123!").unwrap();

    let answer = shop.login("john@example.com", "SecurePass123!").unwrap();

    assert!(!answer.access_token.is_empty());
    assert!(!answer.refresh_token.is_empty());
    assert_eq!(answer.user.id, registered.user.id);
    assert_eq!(answer.user.name, "John Doe");
    assert_eq!(answer.user.email, "john@example.com");
    assert_eq!(answer.user.role.name(), "User");
}

#[test]
fn test_scenario_login_with_wrong_password() {
    let mut shop = Shop::new();
    shop.register("John Doe", "john@example.com", "SecurePass123!").unwrap();

    let answer = shop.login("john@example.com", "SecurePass!").unwrap_err();

    assert_eq!(answer.status, 401);
    assert_eq!(answer.body.error, "invalid_credentials");
}

#[test]
fn test_scenario_get_me() {
    let mut shop = Shop::new();
    let registered = shop.register("John Doe", "john@example.com", "SecurePass123!").unwrap();

    let subject = shop.subject(None, &registered.access_token).unwrap();
    let info = me(shop.storage.user_by_key(user_key(&subject).unwrap())).unwrap();

    assert_eq!(info.name, "John Doe");
    assert_eq!(info.email, "john@example.com");
    assert_eq!(info.role.name(), "User");
}

#[test]
fn test_scenario_invalid_token_is_turned_away() {
    let shop = Shop::new();

    let answer = shop.subject(None, "invalid_token").unwrap_err();

    assert_eq!(answer.status, 401);
    assert_eq!(answer.body.error, "invalid_token");
}

#[test]
fn test_scenario_delete_user_twice() {
    let mut shop = Shop::new();
    let registered = shop.register("John Doe", "john@example.com", "SecurePass123!").unwrap();

    let first = shop.delete_me(&registered.access_token).unwrap();
    assert_eq!(first, "User deleted successfully");
    assert!(shop.storage.users.is_empty(), "User should have been deleted from database");

    let second = shop.delete_me(&registered.access_token).unwrap_err();
    assert_eq!(second.status, 404);
    assert_eq!(second.body.error, "not_found");
    assert_eq!(second.body.message, "User not found");
}

#[test]
fn test_scenario_admin_route() {
    let mut shop = Shop::new();
    let user = shop.register("John Doe", "john@example.com", "SecurePass123!").unwrap();
    let mut root = new_user(&RegisterDto {
        email: "root@example.com".to_string(),
        password: "SecurePass123!".to_string(),
        name: "Root".to_string(),
    })
    .unwrap();
    root.role = Role::Admin;
    shop.storage.insert_user(&root).unwrap();
    let admin = shop.login("root@example.com", "SecurePass123!").unwrap();

    let refused = shop.subject(Some(Role::Admin), &user.access_token).unwrap_err();
    assert_eq!(refused.status, 403);
    assert_eq!(refused.body.error, "insufficient_permissions");

    assert!(shop.subject(Some(Role::Admin), &admin.access_token).is_ok());
    assert_eq!(get_all_users(&shop.storage.users).len(), 2);

    let refused = shop.subject(Some(Role::Admin), "invalid_token").unwrap_err();
    assert_eq!(refused.status, 401);
    assert_eq!(refused.body.error, "invalid_token");
}

#[test]
fn test_scenario_most_advantageous_is_the_higher_discount() {
    let mut shop = Shop::new();
    assert_eq!(shop.add_product("Helmet", 10), "Product created successfully");
    assert_eq!(shop.add_product("Bike", 25), "Product created successfully");

    let best = shop.most_advantageous().unwrap();

    assert_eq!(best.name, "Bike");
    assert_eq!(best.discount, 25);
}

#[test]
fn test_scenario_most_advantageous_without_products() {
    let mut shop = Shop::new();
    match shop.most_advantageous().unwrap_err() {
        AppErrors::NotFound(name) => assert_eq!(name, "Product"),
        other => panic!("unexpected error: {:?}", other),
    }
    assert!(shop.cache.held.is_empty());
}

#[test]
fn test_scenario_every_change_sends_the_next_lookup_to_the_storage() {
    let mut shop = Shop::new();
    shop.add_product("Helmet", 10);

    assert_eq!(shop.most_advantageous().unwrap().name, "Helmet");
    assert_eq!(shop.storage.best_lookups, 1);
    assert_eq!(shop.cache.held["most_advantageous"].1, 3600);

    // Answered from the cache: the storage is left alone.
    assert_eq!(shop.most_advantageous().unwrap().name, "Helmet");
    assert_eq!(shop.storage.best_lookups, 1);

    shop.add_product("Bike", 25);
    assert_eq!(shop.most_advantageous().unwrap().name, "Bike");
    assert_eq!(shop.storage.best_lookups, 2);

    shop.storage.products[1].discount = 5;
    assert_eq!(shop.changed(ProductChange::Update), "Product updated successfully");
    assert_eq!(shop.most_advantageous().unwrap().name, "Helmet");
    assert_eq!(shop.storage.best_lookups, 3);

    let key = product_key("00000000-0000-0000-0000-000000000000").unwrap();
    shop.storage.products.retain(|p| p._id != key);
    assert_eq!(shop.changed(ProductChange::Delete), "Product deleted successfully");
    assert_eq!(shop.most_advantageous().unwrap().name, "Helmet");
    assert_eq!(shop.storage.best_lookups, 4);
    assert_eq!(shop.most_advantageous().unwrap().name, "Helmet");
    assert_eq!(shop.storage.best_lookups, 4);
}

#[test]
fn test_scenario_a_stale_hit_is_answered_as_it_is() {
    let mut shop = Shop::new();
    shop.add_product("Helmet", 10);
    assert_eq!(shop.most_advantageous().unwrap().discount, 10);

    // The storage changes behind the cache's back.
    shop.storage.products[0].discount = 90;

    assert_eq!(shop.most_advantageous().unwrap().discount, 10);
}

#[test]
fn test_scenario_a_cache_that_is_down_fails_no_request() {
    let mut shop = Shop::new();
    shop.cache.up = false;

    assert_eq!(shop.add_product("Helmet", 10), "Product created successfully");
    assert_eq!(shop.most_advantageous().unwrap().name, "Helmet");
    assert_eq!(shop.most_advantageous().unwrap().name, "Helmet");
    assert_eq!(shop.storage.best_lookups, 2);
}
