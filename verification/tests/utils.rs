use errify_core::error::{Diagnostic, ErrorKind, Span};
use errify_core::syntax::{FnArg, GenericArgument, LastSegment};
use errify_core::text::{push_decimal, push_each, push_optional, push_spaced};
use errify_core::utils::{
    call_inputs, clean_args_tokens, clear_args, clear_inputs, ok_ty, ok_ty_of, CleanFnArg,
};

fn invalid(source: &str) -> Diagnostic {
    Diagnostic {
        kind: ErrorKind::Shape,
        message: "Invalid return type. Expected `Result<...>`".to_string(),
        span: Span::Source(source.to_string()),
    }
}

fn ty(text: &str) -> Option<String> {
    Some(text.to_string())
}

#[test]
fn ok_ty_takes_the_first_type_argument() {
    assert_eq!(ok_ty(&ty("Result<i32, E>")).unwrap(), "i32");
    assert_eq!(ok_ty(&ty("std::result::Result<Vec<u8>, E>")).unwrap(), "Vec < u8 >");
    assert_eq!(ok_ty(&ty("Result<(), Box<dyn Error>>")).unwrap(), "()");
    assert_eq!(ok_ty(&ty("anyhow::Result<(u8, u8)>")).unwrap(), "(u8 , u8)");
    assert_eq!(ok_ty(&ty("<T as Trait>::Output<u8>")).unwrap(), "u8");
}

#[test]
fn ok_ty_rejects_other_shapes() {
    assert_eq!(ok_ty(&ty("i32")).unwrap_err(), invalid("i32"));
    assert_eq!(ok_ty(&ty("Result")).unwrap_err(), invalid("Result"));
    assert_eq!(ok_ty(&ty("a::b::Result")).unwrap_err(), invalid("Result"));
    assert_eq!(ok_ty(&ty("(i32, u8)")).unwrap_err(), invalid("(i32, u8)"));
    assert_eq!(ok_ty(&ty("&Result<i32, E>")).unwrap_err(), invalid("&Result<i32, E>"));
    assert_eq!(ok_ty(&ty("(Result<i32, E>)")).unwrap_err(), invalid("(Result<i32, E>)"));
    assert_eq!(ok_ty(&ty("Result<'a, E>")).unwrap_err(), invalid("'a"));
    assert_eq!(ok_ty(&ty("Result<{ 1 }, E>")).unwrap_err(), invalid("{ 1 }"));
    assert_eq!(ok_ty(&ty("dyn Fn(i32) -> u8")).unwrap_err(), invalid("dyn Fn(i32) -> u8"));
    assert_eq!(ok_ty(&ty("impl Into<u8>")).unwrap_err(), invalid("impl Into<u8>"));
    assert_eq!(ok_ty(&ty("Result<>")).unwrap_err(), invalid("Result < >"));
    assert_eq!(
        ok_ty(&None).unwrap_err(),
        Diagnostic {
            kind: ErrorKind::Shape,
            message: "Invalid return type. Expected `Result<...>`".to_string(),
            span: Span::CallSite,
        }
    );
    assert_eq!(ok_ty(&ty("Result<")).unwrap_err(), invalid("Result<"));
}

#[test]
fn ok_ty_of_decides_on_what_was_read() {
    let last = |arguments: Option<Vec<GenericArgument>>| {
        Ok(Some(LastSegment { text: "R < T >".to_string(), arguments }))
    };
    assert_eq!(
        ok_ty_of("TY", last(Some(vec![GenericArgument::Type("T".to_string())]))).unwrap(),
        "T"
    );
    assert_eq!(
        ok_ty_of(
            "TY",
            last(Some(vec![
                GenericArgument::Other("'a".to_string()),
                GenericArgument::Type("T".to_string())
            ]))
        )
        .unwrap_err(),
        invalid("'a")
    );
    assert_eq!(ok_ty_of("TY", last(None)).unwrap_err(), invalid("R < T >"));
    assert_eq!(ok_ty_of("TY", last(Some(vec![]))).unwrap_err(), invalid("R < T >"));
    assert_eq!(ok_ty_of("TY", Ok(None)).unwrap_err(), invalid("TY"));
    assert_eq!(ok_ty_of("TY", Err("bad".to_string())).unwrap_err(), invalid("TY"));
}

fn clean(attrs: &[&str], ident: &str, ty: &str) -> CleanFnArg {
    CleanFnArg {
        attrs: attrs.iter().map(|a| a.to_string()).collect(),
        ident: ident.to_string(),
        ty: ty.to_string(),
    }
}

#[test]
fn clear_inputs_names_every_argument() {
    assert_eq!(
        clear_inputs("a: i32, (b, c): (u8, u8), _: u8, #[attr] mut d: T, &mut f: &mut u8").unwrap(),
        vec![
            clean(&[], "a", "i32"),
            clean(&[], "arg1", "(u8 , u8)"),
            clean(&[], "arg2", "u8"),
            clean(&["# [attr]"], "d", "T"),
            clean(&[], "arg4", "& mut u8"),
        ]
    );
    assert_eq!(clear_inputs("").unwrap(), vec![]);
}

#[test]
fn clear_inputs_counts_positions_in_base_ten() {
    let cleared =
        clear_inputs("_: u8, _: u8, _: u8, _: u8, _: u8, _: u8, _: u8, _: u8, _: u8, _: u8, _: u8")
            .unwrap();
    assert_eq!(cleared.len(), 11);
    assert_eq!(cleared[0].ident, "arg0");
    assert_eq!(cleared[9].ident, "arg9");
    assert_eq!(cleared[10].ident, "arg10");
}

#[test]
fn clear_inputs_rejects_a_receiver() {
    assert_eq!(
        clear_inputs("&mut self, a: i32").unwrap_err(),
        Diagnostic {
            kind: ErrorKind::Shape,
            message: "Self argument is not supported".to_string(),
            span: Span::Source("& mut self".to_string()),
        }
    );
    let err = clear_inputs("a: i32 b").unwrap_err();
    assert_eq!(err.kind, ErrorKind::Shape);
    assert_eq!(err.span, Span::Source("a: i32 b".to_string()));
}

#[test]
fn clear_args_points_at_the_first_receiver() {
    let typed = || FnArg::Typed { attrs: vec![], ident: None, ty: "u8".to_string() };
    let receiver = |text: &str| FnArg::Receiver { text: text.to_string() };
    assert_eq!(
        clear_args(&vec![typed(), receiver("first"), typed(), receiver("second")])
            .unwrap_err()
            .span,
        Span::Source("first".to_string())
    );
    assert_eq!(
        clear_args(&vec![typed(), typed()]).unwrap(),
        vec![clean(&[], "arg0", "u8"), clean(&[], "arg1", "u8")]
    );
}

#[test]
fn cleaned_arguments_as_text() {
    let args = vec![clean(&[], "a", "i32"), clean(&["# [x]", "# [y]"], "arg1", "(u8 , u8)")];
    assert_eq!(args[0].to_tokens(), "a : i32");
    assert_eq!(args[1].to_tokens(), "# [x] # [y] arg1 : (u8 , u8)");
    assert_eq!(clean_args_tokens(&args), "a : i32, # [x] # [y] arg1 : (u8 , u8), ");
    assert_eq!(call_inputs(&args), "a, arg1, ");
    assert_eq!(call_inputs(&vec![]), "");
    assert_eq!(clean_args_tokens(&vec![]), "");
}

#[test]
fn text_is_built_piece_by_piece() {
    let mut out = String::from("x");
    push_decimal(&mut out, 0);
    out.push(' ');
    push_decimal(&mut out, 7);
    out.push(' ');
    push_decimal(&mut out, 10);
    out.push(' ');
    push_decimal(&mut out, 1234567890);
    assert_eq!(out, "x0 7 10 1234567890");

    let mut out = String::new();
    push_optional(&mut out, true, "const", " ");
    push_optional(&mut out, false, "async", " ");
    push_spaced(&mut out, "");
    push_spaced(&mut out, "pub");
    push_each(&mut out, &vec!["a".to_string(), "b".to_string()], ", ");
    assert_eq!(out, "const pub a, b, ");
}

#[test]
fn every_failure_of_ok_ty_is_the_same_diagnostic() {
    for text in ["i32", "Result", "Result<>", "Result<'a, E>", "(i32, E)", "&Result<i32, E>", "Result<", ")"] {
        let err = ok_ty(&ty(text)).unwrap_err();
        assert_eq!(err.kind, ErrorKind::Shape);
        assert_eq!(err.message, "Invalid return type. Expected `Result<...>`");
    }
    let err = ok_ty(&None).unwrap_err();
    assert_eq!(err.kind, ErrorKind::Shape);
    assert_eq!(err.message, "Invalid return type. Expected `Result<...>`");
}

#[test]
fn a_failure_reports_its_family_its_message_and_its_place() {
    assert_eq!(
        ok_ty(&ty("i32")).unwrap_err().report(),
        "invalid item: Invalid return type. Expected `Result<...>` (at `i32`)"
    );
    assert_eq!(
        ok_ty(&None).unwrap_err().report(),
        "invalid item: Invalid return type. Expected `Result<...>`"
    );
    assert_eq!(
        Diagnostic {
            kind: ErrorKind::Grammar,
            message: "Unexpected tokens".to_string(),
            span: Span::Source("b".to_string()),
        }
        .report(),
        "invalid arguments: Unexpected tokens (at `b`)"
    );
    assert_eq!(
        Diagnostic {
            kind: ErrorKind::Configuration,
            message: "ambiguous".to_string(),
            span: Span::CallSite,
        }
        .report(),
        "invalid configuration: ambiguous"
    );
}
