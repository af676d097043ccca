use granite2::error_handling::{InternalDefect, TranslationError, UnsupportedConstruct};
use granite2::program::{Operand, Place, ProjectionElem, Ty, TyKind};
use granite2::utils::{
    check_substring_in_place_type, chars_of, extract_def_id_of_called_function_from_operand,
    extract_first_argument_for_function_call, extract_nth_argument, extract_nth_argument_as_place,
    get_place_type, has_substring, is_place_ty_with_concrete_type,
};

fn ty(name: &str, kind: TyKind) -> Ty {
    Ty { name: name.to_string(), kind }
}

fn place(local: usize, name: &str) -> Place {
    Place { local, projection: vec![], ty: ty(name, TyKind::Other) }
}

#[test]
fn called_function_of_a_function_item() {
    let operand = Operand::Constant(ty("fn() {foo}", TyKind::FnDef(7)));
    assert_eq!(extract_def_id_of_called_function_from_operand(&operand), Ok(7));
}

#[test]
fn called_function_of_a_closure_in_a_local() {
    let closure = Place {
        local: 3,
        projection: vec![ProjectionElem::Deref],
        ty: ty("[closure@main.rs:3:5]", TyKind::Closure(2)),
    };
    assert_eq!(extract_def_id_of_called_function_from_operand(&Operand::Move(closure.clone())), Ok(2));
    assert_eq!(extract_def_id_of_called_function_from_operand(&Operand::Copy(closure)), Ok(2));
}

#[test]
fn function_pointers_are_not_supported() {
    let operand = Operand::Copy(Place {
        local: 1,
        projection: vec![],
        ty: ty("fn(i32) -> i32", TyKind::FnPtr),
    });
    let error = extract_def_id_of_called_function_from_operand(&operand).unwrap_err();
    assert_eq!(error, TranslationError::Unsupported(UnsupportedConstruct::FunctionPointer));
    assert!(error.is_unsupported());
}

#[test]
fn calls_of_other_values_are_not_supported() {
    let operand = Operand::Constant(ty("i32", TyKind::Other));
    assert_eq!(
        extract_def_id_of_called_function_from_operand(&operand),
        Err(TranslationError::Unsupported(UnsupportedConstruct::UnresolvedCall))
    );
}

#[test]
fn first_argument_must_be_moved() {
    let args = vec![Operand::Move(place(4, "&std::sync::Mutex<i32>")), Operand::Copy(place(5, "i32"))];
    assert_eq!(extract_first_argument_for_function_call(&args).unwrap().local, 4);

    let copied = vec![Operand::Copy(place(4, "i32"))];
    assert_eq!(
        extract_first_argument_for_function_call(&copied).unwrap_err(),
        TranslationError::Internal(InternalDefect::MissingArgument)
    );
    let constant = vec![Operand::Constant(ty("i32", TyKind::Other))];
    assert!(extract_first_argument_for_function_call(&constant).is_err());
    assert!(extract_first_argument_for_function_call(&vec![]).is_err());
    assert!(!extract_first_argument_for_function_call(&vec![]).unwrap_err().is_unsupported());
}

#[test]
fn nth_argument_as_place() {
    let args = vec![
        Operand::Move(place(1, "a")),
        Operand::Constant(ty("i32", TyKind::Other)),
        Operand::Copy(place(2, "b")),
    ];
    assert_eq!(extract_nth_argument_as_place(&args, 0).unwrap().local, 1);
    assert!(extract_nth_argument_as_place(&args, 1).is_none());
    assert_eq!(extract_nth_argument_as_place(&args, 2).unwrap().local, 2);
    assert!(extract_nth_argument_as_place(&args, 3).is_none());

    assert_eq!(extract_nth_argument(&args, 2).unwrap().local, 2);
    assert_eq!(
        extract_nth_argument(&args, 1).unwrap_err(),
        TranslationError::Internal(InternalDefect::MissingArgument)
    );
    assert!(extract_nth_argument(&args, 9).is_err());
}

#[test]
fn place_type_is_the_type_of_the_place() {
    let mutex = place(1, "std::sync::Mutex<i32>");
    assert_eq!(get_place_type(&mutex).name, "std::sync::Mutex<i32>");
    assert_eq!(get_place_type(&mutex).kind, TyKind::Other);
}

#[test]
fn characters_of_a_string() {
    assert_eq!(chars_of("añb"), vec!['a', 'ñ', 'b']);
    assert!(chars_of("").is_empty());
}

#[test]
fn substrings() {
    assert!(has_substring("std::sync::Mutex<i32>", "std::sync::Mutex<"));
    assert!(has_substring("&std::sync::Mutex<i32>", "Mutex<i32>"));
    assert!(has_substring("abc", ""));
    assert!(has_substring("", ""));
    assert!(has_substring("abc", "abc"));
    assert!(!has_substring("abc", "abcd"));
    assert!(!has_substring("", "a"));
    assert!(!has_substring("std::sync::MutexGuard<i32>", "std::sync::Mutex<"));
    assert!(has_substring("aab", "ab"));
}

#[test]
fn substring_of_a_place_type() {
    let guard = place(2, "std::sync::MutexGuard<'_, i32>");
    assert!(check_substring_in_place_type(&guard, "std::sync::MutexGuard<"));
    assert!(!check_substring_in_place_type(&guard, "std::sync::Condvar"));
}

#[test]
fn concrete_types() {
    let mutex = ty("std::sync::Mutex<i32>", TyKind::Other);
    assert!(is_place_ty_with_concrete_type(&mutex, "std::sync::Mutex<T>"));
    assert!(!is_place_ty_with_concrete_type(&mutex, "std::sync::Arc<T>"));
    assert!(!is_place_ty_with_concrete_type(&mutex, "std::sync::Mutex"));
    assert!(is_place_ty_with_concrete_type(&mutex, "std::sync::Mutex<i32>"));

    // The type must be concrete: the parameter itself does not count.
    let generic = ty("std::sync::Mutex<T>", TyKind::Other);
    assert!(!is_place_ty_with_concrete_type(&generic, "std::sync::Mutex<T>"));

    let nested = ty("std::sync::Arc<std::sync::Mutex<i32>>", TyKind::Other);
    assert!(!is_place_ty_with_concrete_type(&nested, "std::sync::Arc<T>"));
    assert!(is_place_ty_with_concrete_type(&nested, "std::sync::Arc<std::sync::Mutex<T>>"));

    let plain = ty("i32", TyKind::Other);
    assert!(is_place_ty_with_concrete_type(&plain, "i32"));
    assert!(is_place_ty_with_concrete_type(&plain, "T"));
    assert!(!is_place_ty_with_concrete_type(&ty("T", TyKind::Other), "T"));
}
