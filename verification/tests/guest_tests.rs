use zkevm_bench::guest::{
    block_encoding_length_inputs, block_encoding_length_metadata, empty_program_input, hash_hex,
    stateless_validator_inputs, BlockSummary, ExecutionClient,
};

fn summary(name: &str, n: u8) -> BlockSummary {
    BlockSummary {
        name: name.to_string(),
        block_hash: [n; 32],
        parent_hash: [n.wrapping_sub(1); 32],
        gas_used: 21000 * n as u64,
        success: n % 2 == 0,
    }
}

#[test]
fn execution_client_names() {
    assert_eq!(ExecutionClient::from_name("reth"), Some(ExecutionClient::Reth));
    assert_eq!(ExecutionClient::from_name("RETH"), Some(ExecutionClient::Reth));
    assert_eq!(ExecutionClient::from_name("EthRex"), Some(ExecutionClient::Ethrex));
    assert_eq!(ExecutionClient::from_name("geth"), None);
    assert_eq!(ExecutionClient::Reth.as_str(), "Reth");
    assert_eq!(ExecutionClient::Ethrex.sub_folder(), "ethrex");
    assert_eq!(ExecutionClient::Reth.sub_folder(), "reth");
    for el in [ExecutionClient::Reth, ExecutionClient::Ethrex] {
        assert_eq!(ExecutionClient::from_name(&el.as_str()), Some(el));
    }
}

#[test]
fn validator_inputs_follow_the_fixtures() {
    let fixtures = vec![summary("a", 2), summary("b", 3)];
    let plans = stateless_validator_inputs(Ok(fixtures.clone()), ExecutionClient::Ethrex).unwrap();
    assert_eq!(plans.len(), 2);
    assert_eq!(plans[0].name, "a");
    assert_eq!(plans[0].client, ExecutionClient::Ethrex);
    assert_eq!(plans[0].expected.block_hash, [2; 32]);
    assert_eq!(plans[0].expected.parent_hash, [1; 32]);
    assert!(plans[0].expected.success);
    assert!(!plans[1].expected.success);
    assert_eq!(plans[1].metadata.block_used_gas, 63000);
    assert!(plans.iter().all(|p| p.output_sha256));
    assert_eq!(
        stateless_validator_inputs(Err("bad json".to_string()), ExecutionClient::Reth).unwrap_err(),
        "bad json"
    );
}

#[test]
fn block_hash_in_hex() {
    let mut h = [0u8; 32];
    h[0] = 0xab;
    h[31] = 0x0f;
    let s = hash_hex(&h);
    assert_eq!(s.len(), 66);
    assert!(s.starts_with("0xab00"));
    assert!(s.ends_with("000f"));
    let expected: String = std::iter::once("0x".to_string())
        .chain(h.iter().map(|b| format!("{b:02x}")))
        .collect();
    assert_eq!(s, expected);
}

#[test]
fn block_encoding_length_inputs_carry_metadata() {
    let m = block_encoding_length_metadata("Rlp", &[0xff; 32], 100);
    assert_eq!(m.format, "Rlp");
    assert_eq!(m.block_hash, format!("0x{}", "ff".repeat(32)));
    assert_eq!(m.loop_count, 100);
    let inputs = block_encoding_length_inputs(Ok(vec![summary("x", 1)]), "Ssz", 3).unwrap();
    assert_eq!(inputs.len(), 1);
    assert_eq!(inputs[0].0, "x");
    assert_eq!(inputs[0].1.format, "Ssz");
    assert!(block_encoding_length_inputs(Err("e".to_string()), "Rlp", 1).is_err());
}

#[test]
fn empty_program_has_no_expected_output() {
    let f = empty_program_input();
    assert_eq!(f.name, "empty_program");
    assert!(f.expected_public_values.is_empty());
}
