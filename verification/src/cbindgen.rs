//! Settings for the header generator: the containers are declared by hand in a
//! C++ namespace, so the generator must leave them out and refer to them there.

use vstd::prelude::*;
use vstd::string::StringExecFns;

verus! {

/// `cbindgen::Builder`, of which only the names to leave out and the names to
/// write otherwise are spoken of.
#[verifier::external_type_specification]
#[verifier::external_body]
pub struct ExBuilder(cbindgen::Builder);

/// The names that `builder` has been told to leave out, in the order in which
/// it was told.
pub uninterp spec fn excluded_items(builder: cbindgen::Builder) -> Seq<Seq<char>>;

/// The names that `builder` has been told to write otherwise, each with the
/// name to write in its place.
pub uninterp spec fn renamed_items(builder: cbindgen::Builder) -> Map<Seq<char>, Seq<char>>;

/// `cbindgen::Builder::exclude_item` appends `name` to the names to leave out
/// and touches nothing else.
#[verifier::external_body]
fn exclude_item(builder: cbindgen::Builder, name: &str) -> (r: cbindgen::Builder)
    ensures
        excluded_items(r) == excluded_items(builder).push(name@),
        renamed_items(r) == renamed_items(builder),
{
    builder.exclude_item(name)
}

/// `cbindgen::Builder::rename_item` records that `from` is to be written as
/// `to`, in place of what was recorded for `from` before, and touches nothing
/// else.
#[verifier::external_body]
fn rename_item(builder: cbindgen::Builder, from: &str, to: &str) -> (r: cbindgen::Builder)
    ensures
        excluded_items(r) == excluded_items(builder),
        renamed_items(r) == renamed_items(builder).insert(from@, to@),
{
    builder.rename_item(from, to)
}

/// The containers, by the names they have in this library.
pub open spec fn cxx_type_names() -> Seq<Seq<char>> {
    seq![
        "Array"@,
        "Box"@,
        "OptionBox"@,
        "SliceRef"@,
        "MutSliceRef"@,
        "BoxedSlice"@,
        "ByteSliceRef"@,
        "StrRef"@,
        "BoxedStr"@,
    ]
}

/// The containers, by the names under which C code knows them.
pub open spec fn cxx_wrapper_names() -> Seq<Seq<char>> {
    seq![
        "CBox"@,
        "COptionBox"@,
        "CSliceRef"@,
        "CByteSliceRef"@,
        "CBoxedSlice"@,
        "CStrRef"@,
        "CBoxedStr"@,
        "CharStrRef"@,
    ]
}

/// `name` as it is written inside `namespace`.
pub open spec fn qualified_name(namespace: Seq<char>, name: Seq<char>) -> Seq<char> {
    namespace + "::"@ + name
}

/// `renames`, changed so that each of `names` is written inside `namespace`.
pub open spec fn renamed_into(
    renames: Map<Seq<char>, Seq<char>>,
    namespace: Seq<char>,
    names: Seq<Seq<char>>,
) -> Map<Seq<char>, Seq<char>> {
    Map::new(
        |name: Seq<char>| names.contains(name) || renames.dom().contains(name),
        |name: Seq<char>|
            if names.contains(name) {
                qualified_name(namespace, name)
            } else {
                renames[name]
            },
    )
}

fn type_names() -> (r: Vec<&'static str>)
    ensures
        r.deep_view() == cxx_type_names(),
{
    let r = vec![
        "Array",
        "Box",
        "OptionBox",
        "SliceRef",
        "MutSliceRef",
        "BoxedSlice",
        "ByteSliceRef",
        "StrRef",
        "BoxedStr",
    ];
    assert(r.deep_view() =~= cxx_type_names());
    r
}

fn wrapper_names() -> (r: Vec<&'static str>)
    ensures
        r.deep_view() == cxx_wrapper_names(),
{
    let r = vec![
        "CBox",
        "COptionBox",
        "CSliceRef",
        "CByteSliceRef",
        "CBoxedSlice",
        "CStrRef",
        "CBoxedStr",
        "CharStrRef",
    ];
    assert(r.deep_view() =~= cxx_wrapper_names());
    r
}

fn qualify(namespace: &str, name: &str) -> (r: String)
    ensures
        r@ == qualified_name(namespace@, name@),
{
    String::from_str(namespace).concat("::").concat(name)
}

/// Tells `builder` to leave out each of `names` and to write it inside
/// `namespace` wherever it is referred to.
fn move_into_namespace(builder: cbindgen::Builder, namespace: &str, names: &Vec<&'static str>) -> (r:
    cbindgen::Builder)
    ensures
        excluded_items(r) == excluded_items(builder) + names.deep_view(),
        renamed_items(r) == renamed_into(renamed_items(builder), namespace@, names.deep_view()),
{
    let ghost all = names.deep_view();
    let ghost renames = renamed_items(builder);
    let mut current = builder;
    let mut i: usize = 0;
    proof {
        assert(excluded_items(current) =~= excluded_items(builder) + all.subrange(0, 0));
        assert(renamed_items(current) =~= renamed_into(renames, namespace@, all.subrange(0, 0)));
    }
    while i < names.len()
        invariant
            i <= names.len(),
            all == names.deep_view(),
            all.len() == names.len(),
            renames == renamed_items(builder),
            excluded_items(current) == excluded_items(builder) + all.subrange(0, i as int),
            renamed_items(current) == renamed_into(renames, namespace@, all.subrange(0, i as int)),
        decreases names.len() - i,
    {
        let name: &'static str = names[i];
        let ghost before = all.subrange(0, i as int);
        let ghost after = all.subrange(0, i + 1);
        assert(name@ == all[i as int]);
        current = exclude_item(current, name);
        let to = qualify(namespace, name);
        current = rename_item(current, name, to.as_str());
        proof {
            assert(after =~= before.push(name@));
            assert(excluded_items(current) =~= excluded_items(builder) + after);
            assert forall|k: Seq<char>| after.contains(k) <==> (before.contains(k) || k == name@) by {
                if before.contains(k) {
                    let j = choose|j: int| 0 <= j < before.len() && before[j] == k;
                    assert(after[j] == k);
                }
                if k == name@ {
                    assert(after[i as int] == k);
                }
            }
            assert(renamed_items(current) =~= renamed_into(renames, namespace@, after));
        }
        i += 1;
    }
    proof {
        assert(all.subrange(0, i as int) =~= all);
    }
    current
}

/// Like [`with_cxx_ffi_types_with_namespace`], with the namespace `ffi_types`.
#[must_use]
pub fn with_cxx_ffi_types(builder: cbindgen::Builder) -> (r: cbindgen::Builder)
    ensures
        excluded_items(r) == excluded_items(builder) + cxx_type_names() + cxx_wrapper_names(),
        renamed_items(r) == renamed_into(
            renamed_items(builder),
            "ffi_types"@,
            cxx_type_names() + cxx_wrapper_names(),
        ),
{
    with_cxx_ffi_types_with_namespace(builder, "ffi_types")
}

/// Tells `builder` to leave every container out of the header, under both of
/// its names, and to write each inside `namespace` wherever it is referred to.
/// What `builder` was told before stays, but for an older renaming of one of
/// these names.
#[must_use]
pub fn with_cxx_ffi_types_with_namespace(builder: cbindgen::Builder, namespace: &str) -> (r:
    cbindgen::Builder)
    ensures
        excluded_items(r) == excluded_items(builder) + cxx_type_names() + cxx_wrapper_names(),
        renamed_items(r) == renamed_into(
            renamed_items(builder),
            namespace@,
            cxx_type_names() + cxx_wrapper_names(),
        ),
{
    let types = type_names();
    let wrappers = wrapper_names();
    let with_types = move_into_namespace(builder, namespace, &types);
    let with_both = move_into_namespace(with_types, namespace, &wrappers);
    proof {
        let all = cxx_type_names() + cxx_wrapper_names();
        assert forall|k: Seq<char>|
            all.contains(k) <==> (cxx_type_names().contains(k) || cxx_wrapper_names().contains(
                k,
            )) by {
            vstd::seq_lib::lemma_seq_concat_contains_all_elements(
                cxx_type_names(),
                cxx_wrapper_names(),
                k,
            );
        }
        assert(renamed_items(with_both) =~= renamed_into(renamed_items(builder), namespace@, all));
    }
    with_both
}

} // verus!
