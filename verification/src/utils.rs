//! Functions that read the program's representation without any state of the translation.

use crate::error_handling::{InternalDefect, TranslationError, UnsupportedConstruct};
use crate::program::{Operand, Place, Ty, TyKind};
use vstd::prelude::*;
use vstd::string::*;

verus! {

/// The type of an operand.
pub open spec fn operand_ty(operand: Operand) -> Ty {
    match operand {
        Operand::Copy(place) => place.ty,
        Operand::Move(place) => place.ty,
        Operand::Constant(ty) => ty,
    }
}

/// The function that a call of the operand enters, by its index in the
/// program. A function pointer and a value that is no function are not supported.
pub open spec fn called_function_spec(operand: Operand) -> Result<usize, TranslationError> {
    match operand_ty(operand).kind {
        TyKind::FnDef(def_id) => Ok(def_id),
        TyKind::Closure(def_id) => Ok(def_id),
        TyKind::FnPtr => Err(TranslationError::Unsupported(UnsupportedConstruct::FunctionPointer)),
        TyKind::Other => Err(TranslationError::Unsupported(UnsupportedConstruct::UnresolvedCall)),
    }
}

/// Extracts the index of the called function from the operand of a call.
///
/// The type of the operand must be a function item or a closure.
pub fn extract_def_id_of_called_function_from_operand(operand: &Operand) -> (def_id: Result<
    usize,
    TranslationError,
>)
    ensures
        def_id == called_function_spec(*operand),
{
    let kind = match operand {
        Operand::Copy(place) => place.ty.kind,
        Operand::Move(place) => place.ty.kind,
        Operand::Constant(ty) => ty.kind,
    };
    match kind {
        TyKind::FnDef(def_id) => Ok(def_id),
        TyKind::Closure(def_id) => Ok(def_id),
        TyKind::FnPtr => Err(TranslationError::Unsupported(UnsupportedConstruct::FunctionPointer)),
        TyKind::Other => Err(TranslationError::Unsupported(UnsupportedConstruct::UnresolvedCall)),
    }
}

/// The place that the n-th argument of a call names, if there is such an
/// argument and it is no constant.
pub open spec fn nth_argument_spec(args: Seq<Operand>, n: int) -> Option<Place> {
    if 0 <= n < args.len() {
        match args[n] {
            Operand::Copy(place) => Some(place),
            Operand::Move(place) => Some(place),
            Operand::Constant(_) => None,
        }
    } else {
        None
    }
}

/// Extracts the place of the n-th argument of a call, if it has one.
pub fn extract_nth_argument_as_place(args: &Vec<Operand>, n: usize) -> (place: Option<&Place>)
    ensures
        place is Some <==> nth_argument_spec(args@, n as int) is Some,
        place is Some ==> *place->Some_0 == nth_argument_spec(args@, n as int)->Some_0,
{
    if n < args.len() {
        match &args[n] {
            Operand::Copy(place) => Some(place),
            Operand::Move(place) => Some(place),
            Operand::Constant(_) => None,
        }
    } else {
        None
    }
}

/// Extracts the place of the n-th argument of a call that must have one.
pub fn extract_nth_argument(args: &Vec<Operand>, n: usize) -> (place: Result<
    &Place,
    TranslationError,
>)
    ensures
        place is Ok <==> nth_argument_spec(args@, n as int) is Some,
        place is Ok ==> *place->Ok_0 == nth_argument_spec(args@, n as int)->Some_0,
        place is Err ==> place->Err_0 == TranslationError::Internal(
            InternalDefect::MissingArgument,
        ),
{
    match extract_nth_argument_as_place(args, n) {
        Some(place) => Ok(place),
        None => Err(TranslationError::Internal(InternalDefect::MissingArgument)),
    }
}

/// The place that the first argument of a call moves, if the call has a first
/// argument and passes it by moving.
pub open spec fn first_moved_argument_spec(args: Seq<Operand>) -> Option<Place> {
    if args.len() > 0 {
        match args[0] {
            Operand::Move(place) => Some(place),
            _ => None,
        }
    } else {
        None
    }
}

/// Extracts the first argument of a call, which must be passed by moving.
///
/// For a method call this is the receiver: `mutex.lock()` is the call
/// `std::sync::Mutex::lock(move _1)`.
pub fn extract_first_argument_for_function_call(args: &Vec<Operand>) -> (place: Result<
    &Place,
    TranslationError,
>)
    ensures
        place is Ok <==> first_moved_argument_spec(args@) is Some,
        place is Ok ==> *place->Ok_0 == first_moved_argument_spec(args@)->Some_0,
        place is Err ==> place->Err_0 == TranslationError::Internal(
            InternalDefect::MissingArgument,
        ),
{
    if args.len() > 0 {
        match &args[0] {
            Operand::Move(place) => Ok(place),
            _ => Err(TranslationError::Internal(InternalDefect::MissingArgument)),
        }
    } else {
        Err(TranslationError::Internal(InternalDefect::MissingArgument))
    }
}

/// Finds the type of a place.
pub fn get_place_type(place: &Place) -> (ty: &Ty)
    ensures
        *ty == place.ty,
{
    &place.ty
}

/// Whether `needle` occurs somewhere in `haystack`.
pub open spec fn contains_substring(haystack: Seq<char>, needle: Seq<char>) -> bool {
    exists|i: int|
        0 <= i <= haystack.len() - needle.len() && #[trigger] haystack.subrange(
            i,
            i + needle.len(),
        ) == needle
}

/// The characters of a string.
pub fn chars_of(s: &str) -> (chars: Vec<char>)
    ensures
        chars@ == s@,
{
    let n: usize = s.unicode_len();
    let mut chars: Vec<char> = Vec::new();
    let mut i: usize = 0;
    while i < n
        invariant
            n == s@.len(),
            i <= n,
            chars@ == s@.take(i as int),
        decreases n - i,
    {
        chars.push(s.get_char(i));
        assert(s@.take(i + 1) =~= s@.take(i as int).push(s@[i as int]));
        i = i + 1;
    }
    assert(s@.take(n as int) =~= s@);
    chars
}

/// Whether `needle` stands in `haystack` at position `start`.
fn occurs_at(haystack: &Vec<char>, needle: &Vec<char>, start: usize) -> (found: bool)
    requires
        start + needle@.len() <= haystack@.len(),
    ensures
        found == (haystack@.subrange(start as int, start + needle@.len()) == needle@),
{
    let ghost window = haystack@.subrange(start as int, start + needle@.len());
    let length: usize = haystack.len();
    let mut j: usize = 0;
    while j < needle.len()
        invariant
            j <= needle@.len(),
            start + needle@.len() <= haystack@.len(),
            haystack@.len() == length,
            window == haystack@.subrange(start as int, start + needle@.len()),
            forall|k: int| 0 <= k < j ==> window[k] == needle@[k],
        decreases needle@.len() - j,
    {
        if haystack[start + j] != needle[j] {
            assert(window[j as int] != needle@[j as int]);
            return false;
        }
        j = j + 1;
    }
    assert(window =~= needle@);
    true
}

/// Whether one string occurs inside another.
pub fn has_substring(haystack: &str, needle: &str) -> (found: bool)
    ensures
        found == contains_substring(haystack@, needle@),
{
    let h = chars_of(haystack);
    let n = chars_of(needle);
    if n.len() > h.len() {
        return false;
    }
    let last: usize = h.len() - n.len();
    let mut i: usize = 0;
    loop
        invariant
            h@ == haystack@,
            n@ == needle@,
            last == h@.len() - n@.len(),
            i <= last,
            forall|k: int| 0 <= k < i ==> #[trigger] h@.subrange(k, k + n@.len()) != n@,
        decreases last - i,
    {
        if occurs_at(&h, &n, i) {
            return true;
        }
        if i == last {
            return false;
        }
        i = i + 1;
    }
}

/// Checks whether the printed type of a place holds the given text.
pub fn check_substring_in_place_type(place: &Place, expected: &str) -> (found: bool)
    ensures
        found == contains_substring(place.ty.name@, expected@),
{
    has_substring(place.ty.name.as_str(), expected)
}

/// Whether a character opens or closes a list of generic arguments.
pub open spec fn is_angle_bracket(c: char) -> bool {
    c == '<' || c == '>'
}

/// The parts of a printed type between its angle brackets:
/// `std::sync::Mutex<i32>` has the parts `std::sync::Mutex`, `i32` and the empty part.
pub open spec fn split_at_angle_brackets(s: Seq<char>) -> Seq<Seq<char>>
    decreases s.len(),
{
    if s.len() == 0 {
        seq![Seq::empty()]
    } else {
        let parts = split_at_angle_brackets(s.drop_last());
        if is_angle_bracket(s.last()) {
            parts.push(Seq::empty())
        } else {
            parts.drop_last().push(parts.last().push(s.last()))
        }
    }
}

/// Whether a printed type is the expected generic type with every parameter
/// `T` of it replaced by something that is not `T`.
pub open spec fn is_concrete_instance(actual: Seq<char>, expected: Seq<char>) -> bool {
    let parts = split_at_angle_brackets(actual);
    let expected_parts = split_at_angle_brackets(expected);
    &&& parts.len() == expected_parts.len()
    &&& forall|i: int|
        0 <= i < parts.len() ==> if #[trigger] expected_parts[i] == seq!['T'] {
            parts[i] != seq!['T']
        } else {
            parts[i] == expected_parts[i]
        }
}

/// The characters that each part of a list holds.
pub open spec fn parts_view(parts: Seq<Vec<char>>) -> Seq<Seq<char>> {
    Seq::new(parts.len(), |i: int| parts[i]@)
}

/// Splits a printed type at its angle brackets.
fn split_type(s: &str) -> (parts: Vec<Vec<char>>)
    ensures
        parts_view(parts@) == split_at_angle_brackets(s@),
{
    let chars = chars_of(s);
    let mut parts: Vec<Vec<char>> = Vec::new();
    let mut current: Vec<char> = Vec::new();
    let mut i: usize = 0;
    assert(chars@.take(0) =~= Seq::<char>::empty());
    assert(parts_view(parts@).push(current@) =~= seq![Seq::<char>::empty()]);
    while i < chars.len()
        invariant
            chars@ == s@,
            i <= chars@.len(),
            parts_view(parts@).push(current@) == split_at_angle_brackets(chars@.take(i as int)),
        decreases chars@.len() - i,
    {
        let c = chars[i];
        let ghost before = parts_view(parts@).push(current@);
        let ghost prefix = chars@.take(i + 1);
        assert(prefix.drop_last() =~= chars@.take(i as int));
        assert(prefix.last() == c);
        if c == '<' || c == '>' {
            let ghost old_parts = parts_view(parts@);
            parts.push(current);
            current = Vec::new();
            assert(parts_view(parts@) =~= old_parts.push(before.last()));
            assert(parts_view(parts@).push(current@) =~= before.push(Seq::empty()));
        } else {
            current.push(c);
            assert(parts_view(parts@).push(current@) =~= before.drop_last().push(
                before.last().push(c),
            ));
        }
        i = i + 1;
    }
    assert(chars@.take(chars@.len() as int) =~= chars@);
    let ghost old_parts = parts_view(parts@);
    let ghost last = current@;
    parts.push(current);
    assert(parts_view(parts@) =~= old_parts.push(last));
    parts
}

fn chars_eq(a: &Vec<char>, b: &Vec<char>) -> (equal: bool)
    ensures
        equal == (a@ == b@),
{
    if a.len() != b.len() {
        return false;
    }
    let mut i: usize = 0;
    while i < a.len()
        invariant
            a@.len() == b@.len(),
            i <= a@.len(),
            forall|k: int| 0 <= k < i ==> a@[k] == b@[k],
        decreases a@.len() - i,
    {
        if a[i] != b[i] {
            return false;
        }
        i = i + 1;
    }
    assert(a@ =~= b@);
    true
}

fn is_type_parameter(part: &Vec<char>) -> (is_parameter: bool)
    ensures
        is_parameter == (part@ == seq!['T']),
{
    if part.len() == 1 && part[0] == 'T' {
        assert(part@ =~= seq!['T']);
        true
    } else {
        false
    }
}

/// Checks whether the type of a place matches a given text of the form
/// `module::submodule::type<T>`, where in place of `T` the place has a
/// concrete type (such as `i32`) and not the type parameter `T` itself.
pub fn is_place_ty_with_concrete_type(place_ty: &Ty, expected_ty_str: &str) -> (matches: bool)
    ensures
        matches == is_concrete_instance(place_ty.name@, expected_ty_str@),
{
    let parts = split_type(place_ty.name.as_str());
    let expected_parts = split_type(expected_ty_str);
    if parts.len() != expected_parts.len() {
        return false;
    }
    let ghost p = split_at_angle_brackets(place_ty.name@);
    let ghost e = split_at_angle_brackets(expected_ty_str@);
    let mut i: usize = 0;
    while i < parts.len()
        invariant
            parts_view(parts@) == p,
            parts_view(expected_parts@) == e,
            p.len() == e.len(),
            p == split_at_angle_brackets(place_ty.name@),
            e == split_at_angle_brackets(expected_ty_str@),
            i <= parts@.len(),
            parts@.len() == p.len(),
            expected_parts@.len() == e.len(),
            forall|k: int|
                0 <= k < i ==> if #[trigger] e[k] == seq!['T'] {
                    p[k] != seq!['T']
                } else {
                    p[k] == e[k]
                },
        decreases parts@.len() - i,
    {
        assert(parts_view(parts@)[i as int] == parts@[i as int]@);
        assert(parts_view(expected_parts@)[i as int] == expected_parts@[i as int]@);
        if is_type_parameter(&expected_parts[i]) {
            if is_type_parameter(&parts[i]) {
                assert(e[i as int] == seq!['T'] && p[i as int] == seq!['T']);
                return false;
            }
        } else if !chars_eq(&parts[i], &expected_parts[i]) {
            assert(e[i as int] != seq!['T'] && p[i as int] != e[i as int]);
            return false;
        }
        i = i + 1;
    }
    true
}

} // verus!
