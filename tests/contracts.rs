use lirpc::contracts::compile::{
    build_folder, latest_out_dir, signature_glob, starts_with, BuildDirEntry, CompileError,
};
use lirpc::contracts::contract_file::{
    build_contract, LiRpcMethod, LiRpcMethodFile, LiRpcMethodReturn, LiRpcType, LiRpcTypeFile,
    SerializableType,
};

fn entry(name: &str, modified_nanos: u128) -> BuildDirEntry {
    BuildDirEntry { name: Some(name.to_string()), modified_nanos }
}

#[test]
fn latest_matching_build_wins() {
    let entries = vec![
        entry("lirpc-aaa", 10),
        entry("other-zzz", 99),
        entry("lirpc-bbb", 30),
        entry("lirpc-ccc", 30),
    ];
    assert_eq!(
        latest_out_dir(&"target/debug/build".to_string(), &entries, &"lirpc".to_string()),
        Ok("target/debug/build/lirpc-bbb/out".to_string())
    );
}

#[test]
fn no_matching_build_is_an_error() {
    let entries = vec![entry("other", 5), entry("lirpc-old", 0)];
    assert_eq!(
        latest_out_dir(&"b".to_string(), &entries, &"lirpc".to_string()),
        Err(CompileError::NoBuildFolderFound)
    );
    assert_eq!(
        latest_out_dir(&"b".to_string(), &vec![], &"lirpc".to_string()),
        Err(CompileError::NoBuildFolderFound)
    );
}

#[test]
fn non_utf8_entry_name_is_an_error() {
    let entries = vec![entry("lirpc-a", 5), BuildDirEntry { name: None, modified_nanos: 1 }];
    assert_eq!(
        latest_out_dir(&"b".to_string(), &entries, &"lirpc".to_string()),
        Err(CompileError::InvalidFileName)
    );
}

#[test]
fn build_paths() {
    assert_eq!(build_folder(true), "target/release/build");
    assert_eq!(build_folder(false), "target/debug/build");
    assert_eq!(
        signature_glob(&"out".to_string(), &"app".to_string(), "type"),
        "out/lirpc-app/type-*.json"
    );
    assert_eq!(
        signature_glob(&"out".to_string(), &"app".to_string(), "method"),
        "out/lirpc-app/method-*.json"
    );
}

#[test]
fn prefix_check() {
    assert!(starts_with(&"lirpc-123".to_string(), &"lirpc".to_string()));
    assert!(starts_with(&"x".to_string(), &"".to_string()));
    assert!(!starts_with(&"lir".to_string(), &"lirpc".to_string()));
    assert!(!starts_with(&"lirpd".to_string(), &"lirpc".to_string()));
}

#[test]
fn contract_keeps_last_description_of_a_name() {
    let types = vec![
        LiRpcTypeFile {
            name: "A".to_string(),
            kind: LiRpcType::Struct { fields: vec![("x".to_string(), SerializableType::Bool)] },
        },
        LiRpcTypeFile {
            name: "B".to_string(),
            kind: LiRpcType::Enum { variants: vec![("V".to_string(), vec![])] },
        },
        LiRpcTypeFile {
            name: "A".to_string(),
            kind: LiRpcType::Struct { fields: vec![("y".to_string(), SerializableType::U8)] },
        },
    ];
    let methods = vec![LiRpcMethodFile {
        name: "greet".to_string(),
        output: Some(SerializableType::Custom { name: "GreetingResponse".to_string() }),
        message: Some(SerializableType::Custom { name: "GreetingRequest".to_string() }),
        return_type: LiRpcMethodReturn::Fallible(SerializableType::Custom {
            name: "MyError".to_string(),
        }),
    }];
    let contract = build_contract("1.0.0".to_string(), types, methods);
    assert_eq!(contract.version, "1.0.0");
    assert_eq!(contract.types.len(), 2);
    let a = contract.types.iter().find(|(k, _)| k == "A").unwrap();
    assert_eq!(a.1, LiRpcType::Struct { fields: vec![("y".to_string(), SerializableType::U8)] });
    assert!(contract.types.iter().any(|(k, t)| k == "B"
        && *t == LiRpcType::Enum { variants: vec![("V".to_string(), vec![])] }));
    assert_eq!(contract.methods.len(), 1);
    assert_eq!(
        contract.methods[0].1,
        LiRpcMethod {
            output: Some(SerializableType::Custom { name: "GreetingResponse".to_string() }),
            message: Some(SerializableType::Custom { name: "GreetingRequest".to_string() }),
            return_type: LiRpcMethodReturn::Fallible(SerializableType::Custom {
                name: "MyError".to_string(),
            }),
        }
    );
}

#[test]
fn empty_contract() {
    let contract = build_contract("0".to_string(), vec![], vec![]);
    assert!(contract.types.is_empty());
    assert!(contract.methods.is_empty());
}
