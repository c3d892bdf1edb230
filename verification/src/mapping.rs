use vstd::prelude::*;

use crate::errors::{outcome, slice_to_vec, Error, ErrorView, IoError};
use crate::native::{
    call_of, perform, takes_all, untouched, Native, NativeCall, NativeCallView, NativeReply,
    Procedure,
};
use crate::utils::{applied, ret_val_to_result, str_to_c_string, str_to_c_string_spec};

verus! {

/// Number of entries of the permission array of a native class mapping; the
/// last entry in use is the null one that ends the array.
pub const PERMISSIONS_CAPACITY: usize = 33;

/// A security class and its permissions, in the form that the native
/// library takes: texts in their native form.
#[derive(Debug, Clone, PartialEq, Eq)]
pub struct SecurityClassMapping {
    /// Name of the class; the entry without a name ends the array.
    pub name: Option<Vec<u8>>,
    /// Names of the permissions, in the order of their bits.
    pub perms: Vec<Vec<u8>>,
}

/// Mathematical model of a [`SecurityClassMapping`].
pub struct SecurityClassMappingView {
    pub name: Option<Seq<u8>>,
    pub perms: Seq<Seq<u8>>,
}

/// Model of a vector of texts.
pub open spec fn texts_view(texts: Seq<Vec<u8>>) -> Seq<Seq<u8>> {
    Seq::new(texts.len(), |i: int| texts[i]@)
}

impl View for SecurityClassMapping {
    type V = SecurityClassMappingView;

    open spec fn view(&self) -> SecurityClassMappingView {
        SecurityClassMappingView {
            name: match self.name {
                Some(name) => Some(name@),
                None => None,
            },
            perms: texts_view(self.perms@),
        }
    }
}

/// Model of a vector of class mappings.
pub open spec fn mappings_view(
    mappings: Seq<SecurityClassMapping>,
) -> Seq<SecurityClassMappingView> {
    Seq::new(mappings.len(), |i: int| mappings[i]@)
}

/// The entry that ends an array of class mappings.
pub open spec fn end_of_mappings() -> SecurityClassMappingView {
    SecurityClassMappingView { name: None, perms: Seq::empty() }
}

/// Native form of the permission names `perms`, or the error of the first
/// of them that has none.
pub open spec fn perms_native(perms: Seq<&str>) -> Result<Seq<Seq<u8>>, ErrorView>
    decreases perms.len(),
{
    if perms.len() == 0 {
        Ok(Seq::empty())
    } else {
        match perms_native(perms.drop_last()) {
            Err(err) => Err(err),
            Ok(done) => match str_to_c_string_spec(perms.last()) {
                Err(err) => Err(err),
                Ok(c_perm) => Ok(done.push(c_perm)),
            },
        }
    }
}

/// Native form of the class called `name` with the permissions `perms`.
///
/// A class has fewer permissions than the native array has entries. The
/// number of permissions is checked first, then the name of the class, then
/// the names of the permissions in order.
pub open spec fn class_native(name: &str, perms: Seq<&str>) -> Result<
    SecurityClassMappingView,
    ErrorView,
> {
    if perms.len() >= PERMISSIONS_CAPACITY {
        Err(
            ErrorView::IO {
                source: IoError::InvalidInput,
                operation: "SELinux::set_dynamic_mapping()",
            },
        )
    } else {
        match str_to_c_string_spec(name) {
            Err(err) => Err(err),
            Ok(c_name) => match perms_native(perms) {
                Err(err) => Err(err),
                Ok(c_perms) => Ok(SecurityClassMappingView { name: Some(c_name), perms: c_perms }),
            },
        }
    }
}

/// Native form of the classes `mapping`, or the error of the first of them
/// that has none.
pub open spec fn classes_native(mapping: Seq<(&str, Vec<&str>)>) -> Result<
    Seq<SecurityClassMappingView>,
    ErrorView,
>
    decreases mapping.len(),
{
    if mapping.len() == 0 {
        Ok(Seq::empty())
    } else {
        match classes_native(mapping.drop_last()) {
            Err(err) => Err(err),
            Ok(done) => match class_native(mapping.last().0, mapping.last().1@) {
                Err(err) => Err(err),
                Ok(class) => Ok(done.push(class)),
            },
        }
    }
}

/// Native form of the mapping `mapping`: its classes in order, then the
/// entry that ends the array.
pub open spec fn native_mapping(mapping: Seq<(&str, Vec<&str>)>) -> Result<
    Seq<SecurityClassMappingView>,
    ErrorView,
> {
    match classes_native(mapping) {
        Err(err) => Err(err),
        Ok(classes) => Ok(classes.push(end_of_mappings())),
    }
}

/// Model of a result that holds a native mapping.
pub open spec fn mapping_outcome(result: Result<Vec<SecurityClassMapping>, Error>) -> Result<
    Seq<SecurityClassMappingView>,
    ErrorView,
> {
    match result {
        Ok(mappings) => Ok(mappings_view(mappings@)),
        Err(err) => Err(err@),
    }
}

/// The error of a permission name is the error of every longer sequence of
/// permission names.
proof fn lemma_perms_error_stays(perms: Seq<&str>, count: int, err: ErrorView)
    requires
        0 <= count <= perms.len(),
        perms_native(perms.take(count)) == Err::<Seq<Seq<u8>>, ErrorView>(err),
    ensures
        perms_native(perms) == Err::<Seq<Seq<u8>>, ErrorView>(err),
    decreases perms.len(),
{
    if count == perms.len() {
        assert(perms.take(count) == perms);
    } else {
        assert(perms.drop_last().take(count) == perms.take(count));
        lemma_perms_error_stays(perms.drop_last(), count, err);
    }
}

/// The error of a class is the error of every longer sequence of classes.
proof fn lemma_classes_error_stays(mapping: Seq<(&str, Vec<&str>)>, count: int, err: ErrorView)
    requires
        0 <= count <= mapping.len(),
        classes_native(mapping.take(count)) == Err::<Seq<SecurityClassMappingView>, ErrorView>(
            err,
        ),
    ensures
        classes_native(mapping) == Err::<Seq<SecurityClassMappingView>, ErrorView>(err),
    decreases mapping.len(),
{
    if count == mapping.len() {
        assert(mapping.take(count) == mapping);
    } else {
        assert(mapping.drop_last().take(count) == mapping.take(count));
        lemma_classes_error_stays(mapping.drop_last(), count, err);
    }
}

/// Native form of the permission names `perms`.
fn perms_into_native_form(perms: &Vec<&str>) -> (result: Result<Vec<Vec<u8>>, Error>)
    ensures
        match result {
            Ok(c_perms) => perms_native(perms@) == Ok::<Seq<Seq<u8>>, ErrorView>(
                texts_view(c_perms@),
            ),
            Err(err) => perms_native(perms@) == Err::<Seq<Seq<u8>>, ErrorView>(err@),
        },
{
    let mut c_perms: Vec<Vec<u8>> = Vec::new();
    let mut index: usize = 0;
    assert(texts_view(c_perms@) =~= Seq::<Seq<u8>>::empty());
    assert(perms@.take(0) =~= Seq::<&str>::empty());
    while index < perms.len()
        invariant
            index <= perms.len(),
            perms_native(perms@.take(index as int)) == Ok::<Seq<Seq<u8>>, ErrorView>(
                texts_view(c_perms@),
            ),
        decreases perms.len() - index,
    {
        let ghost before = texts_view(c_perms@);
        let ghost longer = perms@.take(index + 1);
        assert(longer.drop_last() == perms@.take(index as int));
        assert(longer.last() == perms@[index as int]);
        match str_to_c_string(perms[index]) {
            Err(err) => {
                proof {
                    lemma_perms_error_stays(perms@, index + 1, err@);
                }
                return Err(err);
            },
            Ok(c_perm) => {
                c_perms.push(c_perm);
                assert(texts_view(c_perms@) =~= before.push(c_perm@));
            },
        }
        index += 1;
    }
    assert(perms@.take(index as int) == perms@);
    Ok(c_perms)
}

/// Transform a mapping of class names to permission names into the form
/// that the native library takes: an array of classes, each with the array
/// of its permissions, both ended by an entry without a name.
///
/// See: `selinux_set_mapping()`.
pub fn dynamic_mapping_into_native_form(mapping: &[(&str, Vec<&str>)]) -> (result: Result<
    Vec<SecurityClassMapping>,
    Error,
>)
    ensures
        mapping_outcome(result) == native_mapping(mapping@),
{
    let mut c_map: Vec<SecurityClassMapping> = Vec::new();
    let mut index: usize = 0;
    assert(mappings_view(c_map@) =~= Seq::<SecurityClassMappingView>::empty());
    assert(mapping@.take(0) =~= Seq::<(&str, Vec<&str>)>::empty());
    while index < mapping.len()
        invariant
            index <= mapping.len(),
            classes_native(mapping@.take(index as int)) == Ok::<
                Seq<SecurityClassMappingView>,
                ErrorView,
            >(mappings_view(c_map@)),
        decreases mapping.len() - index,
    {
        let ghost before = mappings_view(c_map@);
        let ghost longer = mapping@.take(index + 1);
        assert(longer.drop_last() == mapping@.take(index as int));
        assert(longer.last() == mapping@[index as int]);
        let name: &str = mapping[index].0;
        let permissions: &Vec<&str> = &mapping[index].1;
        if permissions.len() >= PERMISSIONS_CAPACITY {
            let err = Error::from_io("SELinux::set_dynamic_mapping()", IoError::InvalidInput);
            proof {
                lemma_classes_error_stays(mapping@, index + 1, err@);
            }
            return Err(err);
        }
        let c_name = match str_to_c_string(name) {
            Ok(c_name) => c_name,
            Err(err) => {
                proof {
                    lemma_classes_error_stays(mapping@, index + 1, err@);
                }
                return Err(err);
            },
        };
        let c_perms = match perms_into_native_form(permissions) {
            Ok(c_perms) => c_perms,
            Err(err) => {
                proof {
                    lemma_classes_error_stays(mapping@, index + 1, err@);
                }
                return Err(err);
            },
        };
        let element = SecurityClassMapping { name: Some(c_name), perms: c_perms };
        c_map.push(element);
        assert(mappings_view(c_map@) =~= before.push(element@));
        index += 1;
    }
    assert(mapping@.take(index as int) == mapping@);
    let ghost classes = mappings_view(c_map@);
    let end = SecurityClassMapping { name: None, perms: Vec::new() };
    assert(end@.perms =~= Seq::<Seq<u8>>::empty());
    c_map.push(end);
    assert(mappings_view(c_map@) =~= classes.push(end_of_mappings()));
    Ok(c_map)
}

/// Byte strings that hand a class over to the native layer: the name of the
/// class, the names of its permissions in order, then an empty byte string,
/// which no name is, to end the class. The entry that ends the array hands
/// nothing over.
pub open spec fn class_texts(class: SecurityClassMappingView) -> Seq<Seq<u8>> {
    match class.name {
        Some(name) => seq![name] + class.perms + seq![Seq::<u8>::empty()],
        None => Seq::empty(),
    }
}

/// Byte strings that hand `classes` over to the native layer, class by class.
pub open spec fn mapping_texts(classes: Seq<SecurityClassMappingView>) -> Seq<Seq<u8>>
    decreases classes.len(),
{
    if classes.len() == 0 {
        Seq::empty()
    } else {
        mapping_texts(classes.drop_last()) + class_texts(classes.last())
    }
}

/// The call that hands the mapping `classes` over to the native library.
pub open spec fn set_mapping_call(classes: Seq<SecurityClassMappingView>) -> NativeCallView {
    call_of(Procedure::SelinuxSetMapping).all_texts(mapping_texts(classes))
}

/// `call`, with the byte strings of `class` added.
fn with_class(call: NativeCall, class: &SecurityClassMapping) -> (result: NativeCall)
    ensures
        result@ == call@.all_texts(class_texts(class@)),
{
    let ghost start = call@;
    match &class.name {
        None => {
            assert(start.all_texts(Seq::empty()).texts =~= start.texts);
            call
        },
        Some(name) => {
            let mut call = call.text(slice_to_vec(name.as_slice()));
            assert(call@.texts =~= start.all_texts(seq![name@]).texts);
            let mut index: usize = 0;
            assert(class@.perms.take(0) =~= Seq::<Seq<u8>>::empty());
            while index < class.perms.len()
                invariant
                    index <= class.perms.len(),
                    class.name == Some(*name),
                    call@ == start.all_texts(seq![name@] + class@.perms.take(index as int)),
                decreases class.perms.len() - index,
            {
                let ghost before = call@;
                call = call.text(slice_to_vec(class.perms[index].as_slice()));
                assert(class@.perms.take(index + 1) =~= class@.perms.take(index as int).push(
                    class.perms@[index as int]@,
                ));
                assert(call@.texts =~= start.all_texts(
                    seq![name@] + class@.perms.take(index + 1),
                ).texts);
                index += 1;
            }
            assert(class@.perms.take(index as int) =~= class@.perms);
            let ghost filled = call@;
            let call = call.text(Vec::new());
            assert(call@.texts =~= start.all_texts(class_texts(class@)).texts);
            call
        },
    }
}

/// Establishes a mapping from a user-provided ordering of object classes
/// and permissions to the numbers actually used by the loaded system policy.
///
/// The mapping is handed to the native layer in its native form, class by
/// class. A mapping that has no native form is rejected, and nothing is
/// called.
///
/// See: `selinux_set_mapping()`.
pub fn set_dynamic_mapping<F: Fn(NativeCall) -> NativeReply>(
    mapping: &[(&str, Vec<&str>)],
    native: &mut Native<F>,
) -> (result: Result<(), Error>)
    requires
        takes_all(*old(native)),
    ensures
        match native_mapping(mapping@) {
            Err(err) => outcome(result) == Err::<(), ErrorView>(err) && untouched(
                *old(native),
                *final(native),
            ),
            Ok(c_map) => applied(
                *old(native),
                *final(native),
                set_mapping_call(c_map),
                outcome(result),
            ),
        },
{
    let c_map = match dynamic_mapping_into_native_form(mapping) {
        Ok(c_map) => c_map,
        Err(err) => { return Err(err); },
    };
    let mut call = NativeCall::new(Procedure::SelinuxSetMapping);
    let ghost start = call@;
    let ghost classes = mappings_view(c_map@);
    let mut index: usize = 0;
    assert(classes.take(0) =~= Seq::<SecurityClassMappingView>::empty());
    assert(start.all_texts(Seq::empty()).texts =~= start.texts);
    while index < c_map.len()
        invariant
            index <= c_map.len(),
            classes == mappings_view(c_map@),
            start == call_of(Procedure::SelinuxSetMapping),
            call@ == start.all_texts(mapping_texts(classes.take(index as int))),
        decreases c_map.len() - index,
    {
        let ghost before = call@;
        call = with_class(call, &c_map[index]);
        proof {
            let longer = classes.take(index + 1);
            assert(longer.drop_last() =~= classes.take(index as int));
            assert(longer.last() == c_map@[index as int]@);
            assert(call@.texts =~= start.all_texts(mapping_texts(longer)).texts);
        }
        index += 1;
    }
    assert(classes.take(index as int) =~= classes);
    let reply = perform(native, call);
    ret_val_to_result("selinux_set_mapping()", &reply)
}

} // verus!
