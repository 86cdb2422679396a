//! Shapes of the types and methods a server exposes, and how per-item
//! description files are gathered into one contract.
use vstd::prelude::*;

verus! {

/// A type descriptor.
#[derive(Debug, PartialEq)]
#[allow(inconsistent_fields)]
pub enum SerializableType {
    Array { children: Box<SerializableType>, length: usize },
    Vec { children: Box<SerializableType> },
    Custom { name: String },
    Result { ok: Box<SerializableType>, err: Box<SerializableType> },
    Option { some: Box<SerializableType> },
    Tuple { children: Vec<SerializableType> },
    Bool,
    String,
    U128,
    U64,
    U32,
    U16,
    U8,
    I128,
    I64,
    I32,
    I16,
    I8,
    F64,
    F32,
}

/// What a method returns: nothing, or a result whose error has this type.
#[derive(Debug, PartialEq)]
pub enum LiRpcMethodReturn {
    Nothing,
    Fallible(SerializableType),
}

/// A named type of the contract: a struct with its fields by name, or an enum
/// with its variants by name, each with its fields by name.
#[derive(Debug, PartialEq)]
pub enum LiRpcType {
    Struct { fields: Vec<(String, SerializableType)> },
    Enum { variants: Vec<(String, Vec<(String, SerializableType)>)> },
}

/// A method of the contract.
#[derive(Debug, PartialEq)]
pub struct LiRpcMethod {
    pub output: Option<SerializableType>,
    pub message: Option<SerializableType>,
    pub return_type: LiRpcMethodReturn,
}

/// The description of one type, as the schema extraction writes it.
#[derive(Debug, PartialEq)]
pub struct LiRpcTypeFile {
    pub name: String,
    pub kind: LiRpcType,
}

/// The description of one method, as the schema extraction writes it.
#[derive(Debug, PartialEq)]
pub struct LiRpcMethodFile {
    pub name: String,
    pub output: Option<SerializableType>,
    pub message: Option<SerializableType>,
    pub return_type: LiRpcMethodReturn,
}

/// The whole contract. `types` and `methods` are maps from names, each name once.
#[derive(Debug, PartialEq)]
pub struct ContractFile {
    pub version: String,
    pub types: Vec<(String, LiRpcType)>,
    pub methods: Vec<(String, LiRpcMethod)>,
}

/// The map that a list of named entries stands for; a later entry for a name
/// replaces an earlier one.
pub open spec fn entries_map<V>(s: Seq<(String, V)>) -> Map<Seq<char>, V>
    decreases s.len(),
{
    if s.len() == 0 {
        Map::empty()
    } else {
        entries_map(s.drop_last()).insert(s.last().0@, s.last().1)
    }
}

pub open spec fn keys_unique<V>(s: Seq<(String, V)>) -> bool {
    forall|i: int, j: int|
        0 <= i < s.len() && 0 <= j < s.len() && i != j ==> #[trigger] s[i].0@ != #[trigger] s[j].0@
}

/// The types of a contract gathered from `files`: the last description of a
/// name wins.
pub open spec fn types_of_files(files: Seq<LiRpcTypeFile>) -> Map<Seq<char>, LiRpcType>
    decreases files.len(),
{
    if files.len() == 0 {
        Map::empty()
    } else {
        types_of_files(files.drop_last()).insert(files.last().name@, files.last().kind)
    }
}

/// The methods of a contract gathered from `files`: the last description of a
/// name wins.
pub open spec fn methods_of_files(files: Seq<LiRpcMethodFile>) -> Map<Seq<char>, LiRpcMethod>
    decreases files.len(),
{
    if files.len() == 0 {
        Map::empty()
    } else {
        methods_of_files(files.drop_last()).insert(
            files.last().name@,
            LiRpcMethod {
                output: files.last().output,
                message: files.last().message,
                return_type: files.last().return_type,
            },
        )
    }
}

proof fn lemma_entries_map_keys<V>(s: Seq<(String, V)>, k: Seq<char>)
    ensures
        entries_map(s).dom().contains(k) <==> exists|i: int| 0 <= i < s.len() && #[trigger] s[i].0@ == k,
    decreases s.len(),
{
    if s.len() > 0 {
        lemma_entries_map_keys(s.drop_last(), k);
        if exists|i: int| 0 <= i < s.len() && #[trigger] s[i].0@ == k {
            let i = choose|i: int| 0 <= i < s.len() && #[trigger] s[i].0@ == k;
            if i < s.len() - 1 {
                assert(s.drop_last()[i].0@ == k);
            }
        }
        if exists|i: int| 0 <= i < s.drop_last().len() && #[trigger] s.drop_last()[i].0@ == k {
            let i = choose|i: int|
                0 <= i < s.drop_last().len() && #[trigger] s.drop_last()[i].0@ == k;
            assert(s[i].0@ == k);
        }
    }
}

/// Whether some entry of `entries` is named `key`.
fn has_key<V>(entries: &Vec<(String, V)>, key: &String) -> (r: bool)
    ensures
        r == entries_map(entries@).dom().contains(key@),
{
    proof {
        lemma_entries_map_keys(entries@, key@);
    }
    let mut i: usize = 0;
    while i < entries.len()
        invariant
            i <= entries@.len(),
            forall|j: int| 0 <= j < i ==> entries@[j].0@ != key@,
        decreases entries@.len() - i,
    {
        if entries[i].0 == *key {
            proof {
                lemma_entries_map_keys(entries@, key@);
                assert(entries@[i as int].0@ == key@);
            }
            return true;
        }
        i = i + 1;
    }
    false
}

/// Adds entry `(key, value)` unless `entries` already has one named `key`.
fn insert_if_absent<V>(entries: &mut Vec<(String, V)>, key: String, value: V)
    requires
        keys_unique(old(entries)@),
    ensures
        keys_unique(final(entries)@),
        old(entries)@.len() <= final(entries)@.len(),
        entries_map(old(entries)@).dom().contains(key@) ==> final(entries)@ == old(entries)@,
        !entries_map(old(entries)@).dom().contains(key@) ==> final(entries)@ == old(entries)@.push(
            (key, value),
        ),
{
    if !has_key(entries, &key) {
        proof {
            lemma_entries_map_keys(entries@, key@);
        }
        entries.push((key, value));
    }
}

/// The contract that `type_files` and `method_files` describe, for `version`.
/// Where several files describe one name, the last of them counts.
pub fn build_contract(
    version: String,
    type_files: Vec<LiRpcTypeFile>,
    method_files: Vec<LiRpcMethodFile>,
) -> (r: ContractFile)
    ensures
        r.version == version,
        keys_unique(r.types@),
        keys_unique(r.methods@),
        entries_map(r.types@) == types_of_files(type_files@),
        entries_map(r.methods@) == methods_of_files(method_files@),
{
    let mut type_files = type_files;
    let ghost tf = type_files@;
    let mut types: Vec<(String, LiRpcType)> = Vec::new();
    // Walk from the last file to the first, so that the last description of a
    // name is the one kept.
    while type_files.len() > 0
        invariant
            type_files@.len() <= tf.len(),
            type_files@ == tf.take(type_files@.len() as int),
            keys_unique(types@),
            forall|k: Seq<char>|
                #![trigger types_of_files(tf).dom().contains(k)]
                types_of_files(tf).dom().contains(k) ==> if entries_map(types@).dom().contains(k) {
                    entries_map(types@)[k] == types_of_files(tf)[k]
                } else {
                    types_of_files(type_files@).dom().contains(k) && types_of_files(type_files@)[k]
                        == types_of_files(tf)[k]
                },
            forall|k: Seq<char>|
                #![trigger entries_map(types@).dom().contains(k)]
                entries_map(types@).dom().contains(k) ==> types_of_files(tf).dom().contains(k),
            forall|k: Seq<char>|
                #![trigger types_of_files(type_files@).dom().contains(k)]
                types_of_files(type_files@).dom().contains(k) ==> types_of_files(tf).dom().contains(k),
        decreases type_files@.len(),
    {
        let ghost before = types@;
        let ghost rest = type_files@;
        let f = type_files.pop().unwrap();
        let ghost name = f.name@;
        let ghost entry = f.kind;
        assert(rest.drop_last() =~= type_files@);
        assert(type_files@ =~= tf.take(type_files@.len() as int));
        assert(types_of_files(rest) == types_of_files(type_files@).insert(name, entry));
        assert(types_of_files(rest).dom().contains(name));
        assert forall|k: Seq<char>| #[trigger]
            types_of_files(type_files@).dom().contains(k) implies types_of_files(tf).dom().contains(
            k,
        ) by {
            assert(types_of_files(rest).dom().contains(k));
        }
        insert_if_absent(&mut types, f.name, f.kind);
        assert(entries_map(before).dom().contains(name) ==> entries_map(types@) == entries_map(before));
        assert(!entries_map(before).dom().contains(name) ==> entries_map(types@) == entries_map(before).insert(name, entry)) by {
            if !entries_map(before).dom().contains(name) {
                assert(types@.drop_last() =~= before);
            }
        }
    }
    assert(types_of_files(type_files@) =~= Map::empty());
    assert(entries_map(types@) =~= types_of_files(tf));
    let mut method_files = method_files;
    let ghost mf = method_files@;
    let mut methods: Vec<(String, LiRpcMethod)> = Vec::new();
    while method_files.len() > 0
        invariant
            method_files@.len() <= mf.len(),
            method_files@ == mf.take(method_files@.len() as int),
            keys_unique(methods@),
            forall|k: Seq<char>|
                #![trigger methods_of_files(mf).dom().contains(k)]
                methods_of_files(mf).dom().contains(k) ==> if entries_map(methods@).dom().contains(
                    k,
                ) {
                    entries_map(methods@)[k] == methods_of_files(mf)[k]
                } else {
                    methods_of_files(method_files@).dom().contains(k) && methods_of_files(
                        method_files@,
                    )[k] == methods_of_files(mf)[k]
                },
            forall|k: Seq<char>|
                #![trigger entries_map(methods@).dom().contains(k)]
                entries_map(methods@).dom().contains(k) ==> methods_of_files(mf).dom().contains(k),
            forall|k: Seq<char>|
                #![trigger methods_of_files(method_files@).dom().contains(k)]
                methods_of_files(method_files@).dom().contains(k) ==> methods_of_files(mf).dom().contains(k),
        decreases method_files@.len(),
    {
        let ghost before = methods@;
        let ghost rest = method_files@;
        let f = method_files.pop().unwrap();
        let ghost name = f.name@;
        let ghost entry = LiRpcMethod {
            output: f.output,
            message: f.message,
            return_type: f.return_type,
        };
        assert(rest.drop_last() =~= method_files@);
        assert(method_files@ =~= mf.take(method_files@.len() as int));
        assert(methods_of_files(rest) == methods_of_files(method_files@).insert(name, entry));
        assert(methods_of_files(rest).dom().contains(name));
        assert forall|k: Seq<char>| #[trigger]
            methods_of_files(method_files@).dom().contains(k) implies methods_of_files(
            mf,
        ).dom().contains(k) by {
            assert(methods_of_files(rest).dom().contains(k));
        }
        insert_if_absent(
            &mut methods,
            f.name,
            LiRpcMethod { output: f.output, message: f.message, return_type: f.return_type },
        );
        assert(entries_map(before).dom().contains(name) ==> entries_map(methods@) == entries_map(before));
        assert(!entries_map(before).dom().contains(name) ==> entries_map(methods@) == entries_map(before).insert(name, entry)) by {
            if !entries_map(before).dom().contains(name) {
                assert(methods@.drop_last() =~= before);
            }
        }
    }
    assert(methods_of_files(method_files@) =~= Map::empty());
    assert(entries_map(methods@) =~= methods_of_files(mf));
    ContractFile { version, types, methods }
}

} // verus!
