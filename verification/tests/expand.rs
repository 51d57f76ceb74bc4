use zero_on_free::errors::CustomErrorKind;
use zero_on_free::expand::{
    derive_enum_is, is_method, log_fn, log_format, log_values, logged_args, Data, DeriveInput,
    FnArg, ItemFn, Pat, Variant,
};

fn variant(ident: &str, has_fields: bool) -> Variant {
    Variant {
        ident: ident.to_string(),
        has_fields,
    }
}

fn named(name: &str) -> FnArg {
    FnArg::Typed(Pat::Ident(name.to_string()))
}

#[test]
fn a_variant_with_fields_is_matched_with_its_fields_left_open() {
    let maybe = DeriveInput {
        ident: "Maybe".to_string(),
        data: Data::Enum(vec![variant("Just", true), variant("Nothing", false)]),
    };
    assert_eq!(
        derive_enum_is(&maybe).unwrap(),
        "impl Maybe { \
         pub fn is_just(&self) -> bool { matches!(self, Maybe::Just(..)) } \
         pub fn is_nothing(&self) -> bool { matches!(self, Maybe::Nothing) } \
         }"
    );
}

#[test]
fn the_name_of_a_method_is_in_lowercase() {
    let shouting = DeriveInput {
        ident: "Kind".to_string(),
        data: Data::Enum(vec![
            variant("NotFound", false),
            variant("HTTP2", false),
            variant("Über", false),
        ]),
    };
    assert_eq!(
        derive_enum_is(&shouting).unwrap(),
        "impl Kind { \
         pub fn is_notfound(&self) -> bool { matches!(self, Kind::NotFound) } \
         pub fn is_http2(&self) -> bool { matches!(self, Kind::HTTP2) } \
         pub fn is_über(&self) -> bool { matches!(self, Kind::Über) } \
         }"
    );
}

#[test]
fn an_enum_without_variants_gets_an_empty_impl() {
    let never = DeriveInput {
        ident: "Never".to_string(),
        data: Data::Enum(vec![]),
    };
    assert_eq!(derive_enum_is(&never).unwrap(), "impl Never { }");
}

#[test]
fn only_an_enum_can_have_the_methods() {
    for data in [Data::Struct, Data::Union] {
        let input = DeriveInput {
            ident: "Point".to_string(),
            data,
        };
        let error = derive_enum_is(&input).unwrap_err();
        assert_eq!(error.kind(), CustomErrorKind::InvalidArgument);
        assert_eq!(error.message(), "#[derive(IsEnum)] can only be used on enums");
    }
}

#[test]
fn one_method() {
    assert_eq!(
        is_method("Fruit", "Pear", "pear", false),
        "pub fn is_pear(&self) -> bool { matches!(self, Fruit::Pear) } "
    );
    assert_eq!(
        is_method("Shape", "Circle", "circle", true),
        "pub fn is_circle(&self) -> bool { matches!(self, Shape::Circle(..)) } "
    );
}

#[test]
fn only_arguments_bound_by_a_name_are_logged() {
    let inputs = vec![
        FnArg::Receiver,
        named("x"),
        FnArg::Typed(Pat::Other),
        named("y"),
    ];
    assert_eq!(logged_args(&inputs), vec!["x".to_string(), "y".to_string()]);
    assert_eq!(logged_args(&vec![]), Vec::<String>::new());
    assert_eq!(
        logged_args(&vec![FnArg::Receiver, FnArg::Typed(Pat::Other)]),
        Vec::<String>::new()
    );
}

#[test]
fn the_format_names_each_argument() {
    let none: Vec<String> = vec![];
    let one = vec!["x".to_string()];
    let three = vec!["x".to_string(), "y".to_string(), "total".to_string()];

    assert_eq!(log_format(&none), "");
    assert_eq!(log_format(&one), "x = {:?}");
    assert_eq!(log_format(&three), "x = {:?}, y = {:?}, total = {:?}");

    assert_eq!(log_values(&none), "");
    assert_eq!(log_values(&one), "x");
    assert_eq!(log_values(&three), "x, y, total");
}

#[test]
fn a_logged_function_prints_before_its_body() {
    let add = ItemFn {
        vis: "".to_string(),
        sig: "fn add (x : i32 , y : i32) -> i32".to_string(),
        ident: "add".to_string(),
        inputs: vec![named("x"), named("y")],
        block: "{ x + y }".to_string(),
    };
    assert_eq!(
        log_fn(&add),
        " fn add (x : i32 , y : i32) -> i32 { \
         println!(concat!(\"calling \", stringify!(add), \"(\", \"x = {:?}, y = {:?}\", \")\"), x, y); \
         { x + y } }"
    );
}

#[test]
fn a_logged_function_without_arguments() {
    let now = ItemFn {
        vis: "pub".to_string(),
        sig: "fn now (& self) -> u64".to_string(),
        ident: "now".to_string(),
        inputs: vec![FnArg::Receiver],
        block: "{ self . ticks }".to_string(),
    };
    assert_eq!(
        log_fn(&now),
        "pub fn now (& self) -> u64 { \
         println!(concat!(\"calling \", stringify!(now), \"(\", \"\", \")\"), ); \
         { self . ticks } }"
    );
}

// The impl that the derive gives for `Fruit`, written out.
enum Fruit {
    Apple,
    Banana,
    Pear,
}

impl Fruit {
    pub fn is_apple(&self) -> bool {
        matches!(self, Fruit::Apple)
    }

    pub fn is_banana(&self) -> bool {
        matches!(self, Fruit::Banana)
    }

    pub fn is_pear(&self) -> bool {
        matches!(self, Fruit::Pear)
    }
}

#[test]
fn test_is_enum() {
    let fruit = DeriveInput {
        ident: "Fruit".to_string(),
        data: Data::Enum(vec![
            variant("Apple", false),
            variant("Banana", false),
            variant("Pear", false),
        ]),
    };
    assert_eq!(
        derive_enum_is(&fruit).unwrap(),
        "impl Fruit { \
         pub fn is_apple(&self) -> bool { matches!(self, Fruit::Apple) } \
         pub fn is_banana(&self) -> bool { matches!(self, Fruit::Banana) } \
         pub fn is_pear(&self) -> bool { matches!(self, Fruit::Pear) } \
         }"
    );

    let f = Fruit::Pear;
    assert!(f.is_pear());
    assert!(!f.is_banana());
    assert!(!f.is_apple());

    let f = Fruit::Apple;
    assert!(!f.is_pear());
    assert!(!f.is_banana());
    assert!(f.is_apple());

    let f = Fruit::Banana;
    assert!(!f.is_pear());
    assert!(f.is_banana());
    assert!(!f.is_apple());
}

// The function that the attribute makes of `add`, written out; the line that
// it prints is given to `println!` in one piece.
fn add(x: i32, y: i32) -> i32 {
    println!("calling add(x = {:?}, y = {:?})", x, y);
    {
        x + y
    }
}

#[test]
fn test_add() {
    let item = ItemFn {
        vis: "".to_string(),
        sig: "fn add(x: i32, y: i32) -> i32".to_string(),
        ident: "add".to_string(),
        inputs: vec![named("x"), named("y")],
        block: "{ x + y }".to_string(),
    };
    assert_eq!(
        log_fn(&item),
        " fn add(x: i32, y: i32) -> i32 { \
         println!(concat!(\"calling \", stringify!(add), \"(\", \"x = {:?}, y = {:?}\", \")\"), x, y); \
         { x + y } }"
    );

    assert_eq!(self::add(2, 3), 5);
}
