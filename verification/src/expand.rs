//! The source text that two small macros expand to: a derive that gives an
//! enum one `is_...` method for each of its variants, and an attribute that
//! makes a function print its name and arguments when it is called.
//!
//! The functions here work on plain descriptions of the item that a macro is
//! applied to, and return the expansion as text. To read the item out of a
//! token stream, and to turn the text back into one, is left to the caller.

use vstd::prelude::*;
use vstd::string::StringExecFns;

use crate::errors::{CustomError, CustomErrorKind};

verus! {

/// The lowercase form of a text, as `str::to_lowercase` gives it.
pub uninterp spec fn lowercase(text: Seq<char>) -> Seq<char>;

/// `str::to_lowercase` of the standard library: the lowercase equivalent of
/// `text`, as a new `String`. Nothing is proved of it; the contract only
/// gives its result a name.
#[verifier::external_body]
fn to_lowercase(text: &str) -> (lower: String)
    ensures
        lower@ == lowercase(text@),
{
    text.to_lowercase()
}

/// A variant of an enum: its name, and whether it has fields.
pub struct Variant {
    pub ident: String,
    pub has_fields: bool,
}

/// What kind of item a derive is applied to; of an enum, its variants in
/// the order in which they are declared.
pub enum Data {
    Enum(Vec<Variant>),
    Struct,
    Union,
}

/// The item that a derive is applied to: its name and its kind.
pub struct DeriveInput {
    pub ident: String,
    pub data: Data,
}

/// The text of the method that tells whether a value of the enum `name` is
/// of the variant `ident`. `lower` is the variant's name in lowercase. A
/// variant with fields is matched with `(..)` behind its name.
pub open spec fn is_method_text(
    name: Seq<char>,
    ident: Seq<char>,
    lower: Seq<char>,
    has_fields: bool,
) -> Seq<char> {
    "pub fn is_"@ + lower + "(&self) -> bool { matches!(self, "@ + name + "::"@ + ident + (
    if has_fields {
        "(..)"@
    } else {
        Seq::<char>::empty()
    }) + ") } "@
}

/// The texts of the methods for `variants`, one after another.
pub open spec fn is_methods_text(name: Seq<char>, variants: Seq<Variant>) -> Seq<char>
    decreases variants.len(),
{
    if variants.len() == 0 {
        Seq::<char>::empty()
    } else {
        is_methods_text(name, variants.drop_last()) + is_method_text(
            name,
            variants.last().ident@,
            lowercase(variants.last().ident@),
            variants.last().has_fields,
        )
    }
}

/// The text of the impl block that holds the methods for `variants`.
pub open spec fn is_impl_text(name: Seq<char>, variants: Seq<Variant>) -> Seq<char> {
    "impl "@ + name + " { "@ + is_methods_text(name, variants) + "}"@
}

/// The message of the error that `derive_enum_is` gives for an item that is
/// no enum.
pub open spec fn not_an_enum_text() -> Seq<char> {
    "#[derive(IsEnum)] can only be used on enums"@
}

/// The method that tells whether a value of the enum `name` is of the
/// variant `ident`: it is called `is_` and then `lower`, the variant's name
/// in lowercase.
pub fn is_method(name: &str, ident: &str, lower: &str, has_fields: bool) -> (text: String)
    ensures
        text@ == is_method_text(name@, ident@, lower@, has_fields),
{
    let mut text = String::from_str("pub fn is_");
    text.append(lower);
    text.append("(&self) -> bool { matches!(self, ");
    text.append(name);
    text.append("::");
    text.append(ident);
    if has_fields {
        text.append("(..)");
    } else {
        assert(text@ + Seq::<char>::empty() =~= text@);
    }
    text.append(") } ");
    text
}

/// The expansion of the derive on `input`: an impl block for the enum with
/// one method for each variant, in the order of the variants; the method for
/// a variant `Name` is `is_name`. For an item that is no enum, an error of
/// the kind `InvalidArgument` that says so.
pub fn derive_enum_is(input: &DeriveInput) -> (result: Result<String, CustomError>)
    ensures
        match input.data {
            Data::Enum(variants) => result matches Ok(text) && text@ == is_impl_text(
                input.ident@,
                variants@,
            ),
            _ => result matches Err(error) && error.kind_spec() == CustomErrorKind::InvalidArgument
                && error.message_spec() == not_an_enum_text(),
        },
{
    match &input.data {
        Data::Enum(variants) => {
            let name = input.ident.as_str();
            let mut text = String::from_str("impl ");
            text.append(name);
            text.append(" { ");
            let ghost start = text@;
            assert(start + is_methods_text(name@, variants@.take(0)) =~= start);
            let mut i: usize = 0;
            while i < variants.len()
                invariant
                    i <= variants.len(),
                    name@ == input.ident@,
                    text@ == start + is_methods_text(name@, variants@.take(i as int)),
                decreases variants.len() - i,
            {
                let variant = &variants[i];
                let lower = to_lowercase(variant.ident.as_str());
                let method = is_method(name, variant.ident.as_str(), lower.as_str(), variant.has_fields);
                proof {
                    let done = variants@.take(i as int);
                    let next = variants@.take(i + 1);
                    assert(next.drop_last() =~= done);
                    assert(next.last() == variants@[i as int]);
                    assert(start + is_methods_text(name@, done) + method@ =~= start + (
                    is_methods_text(name@, done) + method@));
                }
                text.append(method.as_str());
                i += 1;
            }
            assert(variants@.take(i as int) =~= variants@);
            text.append("}");
            Ok(text)
        },
        _ => Err(
            CustomError::new(
                CustomErrorKind::InvalidArgument,
                "#[derive(IsEnum)] can only be used on enums",
            ),
        ),
    }
}

/// The pattern that binds an argument: a plain name, or something else (a
/// tuple, a struct pattern, a wildcard).
pub enum Pat {
    Ident(String),
    Other,
}

/// An argument of a function: the receiver `self`, or a typed argument with
/// its pattern.
pub enum FnArg {
    Receiver,
    Typed(Pat),
}

/// A function that the logging attribute is applied to. `vis`, `sig` and
/// `block` are the source text of its visibility, its signature and its
/// body; `ident` is its name and `inputs` are its arguments in order.
pub struct ItemFn {
    pub vis: String,
    pub sig: String,
    pub ident: String,
    pub inputs: Vec<FnArg>,
    pub block: String,
}

/// The names of the arguments that are logged: those of the typed arguments
/// that are bound by a plain name, in order. The receiver and arguments
/// bound by another pattern are left out.
pub open spec fn logged_args_spec(inputs: Seq<FnArg>) -> Seq<Seq<char>>
    decreases inputs.len(),
{
    if inputs.len() == 0 {
        Seq::<Seq<char>>::empty()
    } else {
        let before = logged_args_spec(inputs.drop_last());
        match inputs.last() {
            FnArg::Typed(Pat::Ident(name)) => before.push(name@),
            _ => before,
        }
    }
}

/// The format of the logged arguments: for each name, the name, ` = ` and
/// `{:?}`, with `, ` between one argument and the next.
pub open spec fn log_format_spec(args: Seq<Seq<char>>) -> Seq<char>
    decreases args.len(),
{
    if args.len() == 0 {
        Seq::<char>::empty()
    } else if args.len() == 1 {
        args.last() + " = {:?}"@
    } else {
        log_format_spec(args.drop_last()) + ", "@ + args.last() + " = {:?}"@
    }
}

/// The names of the logged arguments as they are handed to `println!`: with
/// `, ` between one and the next.
pub open spec fn log_values_spec(args: Seq<Seq<char>>) -> Seq<char>
    decreases args.len(),
{
    if args.len() == 0 {
        Seq::<char>::empty()
    } else if args.len() == 1 {
        args.last()
    } else {
        log_values_spec(args.drop_last()) + ", "@ + args.last()
    }
}

/// The text of the function with the logging line put before its body.
pub open spec fn log_fn_text(
    vis: Seq<char>,
    sig: Seq<char>,
    ident: Seq<char>,
    args: Seq<Seq<char>>,
    block: Seq<char>,
) -> Seq<char> {
    vis + " "@ + sig + " { println!(concat!(\"calling \", stringify!("@ + ident + "), \"(\", \""@
        + log_format_spec(args) + "\", \")\"), "@ + log_values_spec(args) + "); "@ + block + " }"@
}

/// The names of the arguments that are logged: those of the typed arguments
/// that are bound by a plain name, in order.
pub fn logged_args(inputs: &Vec<FnArg>) -> (args: Vec<String>)
    ensures
        args.deep_view() == logged_args_spec(inputs@),
{
    let mut args: Vec<String> = Vec::new();
    assert(inputs@.take(0) =~= Seq::<FnArg>::empty());
    assert(args.deep_view() =~= Seq::<Seq<char>>::empty());
    let mut i: usize = 0;
    while i < inputs.len()
        invariant
            i <= inputs.len(),
            args.deep_view() == logged_args_spec(inputs@.take(i as int)),
        decreases inputs.len() - i,
    {
        proof {
            let next = inputs@.take(i + 1);
            assert(next.drop_last() =~= inputs@.take(i as int));
            assert(next.last() == inputs@[i as int]);
        }
        let ghost before = args.deep_view();
        match &inputs[i] {
            FnArg::Typed(Pat::Ident(name)) => {
                args.push(name.clone());
                assert(args.deep_view() =~= before.push(name@));
            },
            _ => {},
        }
        i += 1;
    }
    assert(inputs@.take(i as int) =~= inputs@);
    args
}

/// The format of the logged arguments: for each name, the name, ` = ` and
/// `{:?}`, with `, ` between one argument and the next.
pub fn log_format(args: &Vec<String>) -> (format: String)
    ensures
        format@ == log_format_spec(args.deep_view()),
{
    let mut format = String::new();
    let ghost all = args.deep_view();
    assert(all.take(0) =~= Seq::<Seq<char>>::empty());
    let mut i: usize = 0;
    while i < args.len()
        invariant
            i <= args.len(),
            all == args.deep_view(),
            all.len() == args.len(),
            format@ == log_format_spec(all.take(i as int)),
        decreases args.len() - i,
    {
        proof {
            let next = all.take(i + 1);
            assert(next.drop_last() =~= all.take(i as int));
            assert(next.last() == args@[i as int]@);
            if i == 0 {
                assert(Seq::<char>::empty() + next.last() =~= next.last());
            }
        }
        if i > 0 {
            format.append(", ");
        }
        format.append(args[i].as_str());
        format.append(" = {:?}");
        i += 1;
    }
    assert(all.take(i as int) =~= all);
    format
}

/// The names of the logged arguments with `, ` between one and the next.
pub fn log_values(args: &Vec<String>) -> (values: String)
    ensures
        values@ == log_values_spec(args.deep_view()),
{
    let mut values = String::new();
    let ghost all = args.deep_view();
    assert(all.take(0) =~= Seq::<Seq<char>>::empty());
    let mut i: usize = 0;
    while i < args.len()
        invariant
            i <= args.len(),
            all == args.deep_view(),
            all.len() == args.len(),
            values@ == log_values_spec(all.take(i as int)),
        decreases args.len() - i,
    {
        proof {
            let next = all.take(i + 1);
            assert(next.drop_last() =~= all.take(i as int));
            assert(next.last() == args@[i as int]@);
            if i == 0 {
                assert(Seq::<char>::empty() + next.last() =~= next.last());
            }
        }
        if i > 0 {
            values.append(", ");
        }
        values.append(args[i].as_str());
        i += 1;
    }
    assert(all.take(i as int) =~= all);
    values
}

/// The expansion of the logging attribute on `item`: the function as it
/// was, with one line put before its body that prints `calling `, the
/// function's name, and in round brackets each logged argument as its name,
/// ` = ` and its value.
pub fn log_fn(item: &ItemFn) -> (text: String)
    ensures
        text@ == log_fn_text(
            item.vis@,
            item.sig@,
            item.ident@,
            logged_args_spec(item.inputs@),
            item.block@,
        ),
{
    let args = logged_args(&item.inputs);
    let format = log_format(&args);
    let values = log_values(&args);
    let mut text = String::from_str(item.vis.as_str());
    text.append(" ");
    text.append(item.sig.as_str());
    text.append(" { println!(concat!(\"calling \", stringify!(");
    text.append(item.ident.as_str());
    text.append("), \"(\", \"");
    text.append(format.as_str());
    text.append("\", \")\"), ");
    text.append(values.as_str());
    text.append("); ");
    text.append(item.block.as_str());
    text.append(" }");
    text
}

} // verus!
