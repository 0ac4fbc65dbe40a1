use storefront::auth_token::Claims;
use storefront::clients::{get_clients, TClient};
use storefront::dto::{AddCartProductData, LoginInput, RegisterInput};
use storefront::error::{DbError, Error, ErrorPayload};
use storefront::handlers::auth::{LoginFlow, LoginStep, SignupFlow, SignupStep, UserAccount};
use storefront::handlers::cart_add::{AddToCartFlow, AddToCartStep};
use storefront::handlers::checkout::{CheckoutFlow, CheckoutStep};
use storefront::handlers::inventory_add::{InventoryAddFlow, InventoryAddStep};
use storefront::repository::cart::CartLock;
use storefront::roles::ROLES;

fn admin_claims(user_id: i32) -> Claims {
    Claims::new(String::from("test@test.com"), user_id, ROLES::ADMIN.to_string()).unwrap()
}

#[test]
fn test_checkout_failure_locking_cart_items() {
    let user_id = 1;
    let claims = admin_claims(user_id);
    let (flow, step) = CheckoutFlow::start(&claims);
    assert!(matches!(step, CheckoutStep::LockCartItems { user_id: 1 }));
    let (_, step) = flow.on_locked(Err(DbError::Exec(format!("Error while locking cart items"))));
    let err = match step {
        CheckoutStep::Respond { reply } => reply.err().unwrap(),
        _ => panic!("a failed lock must end the checkout"),
    };
    assert_eq!(err.status, 500);
    let message = err.message().unwrap();
    assert_eq!(message, Error::LockProductsInCartError.to_string());
}

#[test]
fn test_checkout_failure_publishing_event() {
    let user_id = 1;
    let claims = admin_claims(user_id);
    let (flow, _) = CheckoutFlow::start(&claims);
    let (flow, step) = flow.on_locked(Ok(CartLock::new().unwrap().order_request_id));
    assert!(matches!(step, CheckoutStep::PublishEvent { .. }));
    let (_, step) = flow.on_published::<Error>(Err(Error::PublishError));
    let err = match step {
        CheckoutStep::Respond { reply } => reply.err().unwrap(),
        _ => panic!("a publication ends the checkout"),
    };
    assert_eq!(err.status, 500);
    assert_eq!(err.message().unwrap(), Error::PublishError.to_string());
}

#[test]
fn test_checkout_successful() {
    let user_id = 1;
    let claims = admin_claims(user_id);
    let (flow, _) = CheckoutFlow::start(&claims);
    let lock = CartLock::new().unwrap();
    let id = lock.order_request_id.clone();
    let (flow, step) = flow.on_locked(Ok(id.clone()));
    match step {
        CheckoutStep::PublishEvent { event } => {
            assert_eq!(event.user_id, user_id);
            assert_eq!(event.order_request_id, id);
        }
        _ => panic!("a locked cart is published"),
    }
    let (_, step) = flow.on_published::<Error>(Ok(()));
    let reply = match step {
        CheckoutStep::Respond { reply } => reply.ok().unwrap(),
        _ => panic!("a publication ends the checkout"),
    };
    assert_eq!(reply.status, 200);
    assert_eq!(reply.body, "Checkout successfull");
}

#[test]
fn add_product_test_add_product_already_in_cart() {
    let user_id = 1;
    let product_id = 1;
    let claims = admin_claims(user_id);
    let (flow, step) = AddToCartFlow::start(&AddCartProductData { product_id }, &claims);
    assert!(matches!(step, AddToCartStep::FetchProduct { product_id: 1 }));
    let (flow, step) = flow.on_product(true);
    assert!(matches!(step, AddToCartStep::AddToCart { user_id: 1, product_id: 1 }));
    let failure = DbError::Exec(format!(
        "Product id {} already in cart for user id {}",
        product_id, user_id
    ));
    let (_, step) = flow.on_inserted(Err(failure));
    let err = match step {
        AddToCartStep::Respond { reply } => reply.err().unwrap(),
        _ => panic!("an insert ends the flow"),
    };
    assert_eq!(err.status, 500);
    assert_eq!(err.message().unwrap(), Error::AddProductToCartError.to_string());
}

#[test]
fn add_product_test_add_product_get_product_details_error() {
    let claims = admin_claims(1);
    let (flow, _) = AddToCartFlow::start(&AddCartProductData { product_id: 1 }, &claims);
    let (_, step) = flow.on_product(false);
    let err = match step {
        AddToCartStep::Respond { reply } => reply.err().unwrap(),
        _ => panic!("an unknown product ends the flow"),
    };
    assert_eq!(err.status, 500);
    assert_eq!(err.message().unwrap(), Error::GetProductDetailsError.to_string());
    assert_eq!(err.message().unwrap(), "error while getting product details");
}

#[test]
fn add_product_test_add_product_successful() {
    let claims = admin_claims(1);
    let (flow, _) = AddToCartFlow::start(&AddCartProductData { product_id: 1 }, &claims);
    let (flow, _) = flow.on_product(true);
    let (_, step) = flow.on_inserted::<DbError>(Ok(()));
    let reply = match step {
        AddToCartStep::Respond { reply } => reply.ok().unwrap(),
        _ => panic!("an insert ends the flow"),
    };
    assert_eq!(reply.status, 201);
    assert_eq!(reply.body, "product added successfully");
}

#[test]
fn test_product_already_in_cart() {
    let user_id = 1;
    let product_id = 1;
    let claims = admin_claims(user_id);
    let clients = get_clients();
    let (flow, step) = AddToCartFlow::start_with_cart_check(&AddCartProductData { product_id }, &claims);
    let (flow, step) = match step {
        AddToCartStep::FetchProduct { product_id } => flow.on_product(clients.get_product_details(product_id).is_some()),
        _ => panic!("a valid payload looks the product up"),
    };
    let (_, step) = match step {
        AddToCartStep::CheckCart { user_id: u, product_id: p } => {
            assert_eq!((u, p), (user_id, product_id));
            flow.on_cart_checked(Ok(true))
        }
        _ => panic!("the cart service checks the cart before inserting"),
    };
    let err = match step {
        AddToCartStep::Respond { reply } => reply.err().unwrap(),
        _ => panic!("a product already in the cart is not inserted"),
    };
    assert_eq!(err.status, 500);
    assert_eq!(err.message().unwrap(), "Product is already in cart");
}

#[test]
fn cart_service_inserts_product_not_in_cart() {
    let claims = admin_claims(3);
    let (flow, _) = AddToCartFlow::start_with_cart_check(&AddCartProductData { product_id: 9 }, &claims);
    let (flow, _) = flow.on_product(true);
    let (flow, step) = flow.on_cart_checked(Ok(false));
    assert!(matches!(step, AddToCartStep::AddToCart { user_id: 3, product_id: 9 }));
    let (_, step) = flow.on_inserted::<DbError>(Ok(()));
    match step {
        AddToCartStep::Respond { reply } => assert_eq!(reply.ok().unwrap().status, 201),
        _ => panic!(),
    }
    let (flow, _) = AddToCartFlow::start_with_cart_check(&AddCartProductData { product_id: 9 }, &claims);
    let (flow, _) = flow.on_product(true);
    let (_, step) = flow.on_cart_checked(Err(DbError::Query(String::from("down"))));
    match step {
        AddToCartStep::Respond { reply } => {
            let err = reply.err().unwrap();
            assert_eq!(err.status, 500);
            assert_eq!(err.message().unwrap(), "Query Error: down");
        }
        _ => panic!(),
    }
}

#[test]
fn inventory_add_answers() {
    let (flow, step) = InventoryAddFlow::start();
    assert!(matches!(step, InventoryAddStep::AddProduct));
    let (_, step) = flow.on_inserted::<DbError>(Ok(()));
    match step {
        InventoryAddStep::Respond { reply } => assert_eq!(reply.ok().unwrap().status, 201),
        _ => panic!(),
    }
    let (flow, _) = InventoryAddFlow::start();
    let (_, step) = flow.on_inserted(Err(DbError::Custom(String::from("down"))));
    match step {
        InventoryAddStep::Respond { reply } => {
            let err = reply.err().unwrap();
            assert_eq!(err.status, 500);
            assert_eq!(err.message().unwrap(), "error while adding product to the inventory");
        }
        _ => panic!(),
    }
}

fn register(email: &str, password: &str) -> RegisterInput {
    RegisterInput {
        email: String::from(email),
        password: String::from(password),
        address: String::from("abc"),
        phone: String::from("123456789"),
    }
}

#[test]
fn signup_rejects_invalid_payload() {
    let (_, step) = SignupFlow::start(register("not-an-email", "123"));
    let err = match step {
        SignupStep::Respond { reply } => reply.err().unwrap(),
        _ => panic!("an invalid payload ends the signup"),
    };
    assert_eq!(err.status, 400);
    match err.payload {
        ErrorPayload::Fields(f) => {
            assert_eq!(f.errors.len(), 2);
            assert_eq!(f.errors[0].field, "email");
            assert_eq!(f.errors[0].code, "email");
            assert_eq!(f.errors[0].value, "not-an-email");
            assert_eq!(f.errors[1].field, "password");
            assert_eq!(f.errors[1].code, "length");
            assert_eq!(f.errors[1].min, Some(6));
        }
        _ => panic!("a validation failure carries its fields"),
    }
}

#[test]
fn signup_creates_user_and_answers_token() {
    let (flow, step) = SignupFlow::start(register("test@test.com", "123456"));
    match step {
        SignupStep::CreateUser { user } => {
            assert_eq!(user.email, "test@test.com");
            assert_eq!(user.role, "USER");
        }
        _ => panic!("a valid payload creates the user"),
    }
    let account = UserAccount { id: 7, email: String::from("test@test.com"), role: String::from("USER") };
    let (_, step) = flow.on_created(Ok(account), "secret");
    let reply = match step {
        SignupStep::Respond { reply } => reply.ok().unwrap(),
        _ => panic!(),
    };
    assert_eq!(reply.status, 201);
    assert_eq!(reply.payload.token_type, "Bearer");
    assert!(reply.payload.access_token.starts_with("eyJ0eXAiOiJKV1QiLCJhbGciOiJIUzI1NiJ9."));
}

#[test]
fn signup_failure_answers_signup_error() {
    let (flow, _) = SignupFlow::start(register("test@test.com", "123456"));
    let (_, step) = flow.on_created(Err(DbError::Custom(String::from("dup"))), "secret");
    let err = match step {
        SignupStep::Respond { reply } => reply.err().unwrap(),
        _ => panic!(),
    };
    assert_eq!(err.status, 500);
    assert_eq!(err.message().unwrap(), "error while signing up");
}

#[test]
fn login_wrong_credentials_answers_401() {
    let input = LoginInput { email: String::from("test@test.com"), password: String::from("x") };
    let (flow, step) = LoginFlow::start(input);
    assert!(matches!(step, LoginStep::FindUser { .. }));
    let (_, step) = flow.on_found(Err(DbError::Custom(String::from("Cannot fund User"))), "secret");
    let err = match step {
        LoginStep::Respond { reply } => reply.err().unwrap(),
        _ => panic!(),
    };
    assert_eq!(err.status, 401);
    assert_eq!(err.message().unwrap(), "wrong credentials");
}

#[test]
fn login_success_answers_token() {
    let input = LoginInput { email: String::from("a@b.co"), password: String::from("pw") };
    let (flow, _) = LoginFlow::start(input);
    let account = UserAccount { id: 3, email: String::from("a@b.co"), role: String::from("ADMIN") };
    let (_, step) = flow.on_found(Ok(account), "secret");
    let reply = match step {
        LoginStep::Respond { reply } => reply.ok().unwrap(),
        _ => panic!(),
    };
    assert_eq!(reply.status, 200);
    let parts: Vec<&str> = reply.payload.access_token.split('.').collect();
    assert_eq!(parts.len(), 3);
}

#[test]
fn login_rejects_bad_email() {
    let input = LoginInput { email: String::from("nobody"), password: String::from("pw") };
    let (_, step) = LoginFlow::start(input);
    match step {
        LoginStep::Respond { reply } => assert_eq!(reply.err().unwrap().status, 400),
        _ => panic!("an invalid e-mail never reaches the repository"),
    }
}

#[test]
fn test_lock_cart_items_empty() {
    let result = CartLock::new().unwrap().outcome(0);
    assert_eq!(result.is_err(), true);
    match result {
        Err(DbError::Exec(d)) => assert_eq!(d, "No cart items to update"),
        _ => panic!(),
    }
}

#[test]
fn test_lock_cart_items_success() {
    let lock = CartLock::new().unwrap();
    let id = lock.order_request_id.clone();
    let result = lock.outcome(1);
    assert_eq!(result.is_ok(), true);
    assert_eq!(result.unwrap(), id);
}

#[test]
fn test_signup() {
    let (flow, step) = SignupFlow::start(RegisterInput {
        email: String::from("test@test.com"),
        password: String::from("123456"),
        address: String::from("abc"),
        phone: String::from("123456789"),
    });
    let user = match step {
        SignupStep::CreateUser { user } => user,
        _ => panic!("a valid signup creates the user"),
    };
    assert_eq!(user.address, "abc");
    assert_eq!(user.phone, "123456789");
    let stored = UserAccount { id: 1, email: user.email.clone(), role: user.role.clone() };
    let (_, step) = flow.on_created(Ok(stored), "secret");
    match step {
        SignupStep::Respond { reply } => assert_eq!(reply.ok().unwrap().status, 201),
        _ => panic!(),
    }
}
