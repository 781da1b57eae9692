use calculator::account::validate_owner;
use calculator::engine::apply_operation;
use calculator::handle_instruction;
use calculator::instruction::decode_instruction;
use calculator::state::decode_state;
use calculator::state::encode_state;
use calculator::Account;
use calculator::CalcError;
use calculator::CalcResult;
use calculator::Instruction;

fn instruction_bytes(operand_a: u32, operand_b: u32, operation: u32) -> Vec<u8> {
    [
        operand_a.to_le_bytes(),
        operand_b.to_le_bytes(),
        operation.to_le_bytes(),
    ]
    .concat()
}

fn fresh_accounts(owner: &[u8]) -> Vec<Account> {
    vec![Account {
        owner: owner.to_vec(),
        data: vec![0; 8],
    }]
}

fn stored_state(accounts: &Vec<Account>) -> CalcResult {
    decode_state(&accounts[0].data).unwrap()
}

#[test]
fn test_calculator_operations() {
    let program_id = [0u8; 32];
    let mut accounts = fresh_accounts(&program_id);

    let num1: u32 = 100;
    let num2: u32 = 30;
    let add_operation: u32 = 0;
    let add_instruction_data = instruction_bytes(num1, num2, add_operation);

    assert_eq!(stored_state(&accounts).add_result, 0);

    handle_instruction(&program_id, &mut accounts, &add_instruction_data).unwrap();

    assert_eq!(stored_state(&accounts).add_result, num1 + num2);

    let sub_operation: u32 = 1;
    let sub_instruction_data = instruction_bytes(num1, num2, sub_operation);

    handle_instruction(&program_id, &mut accounts, &sub_instruction_data).unwrap();

    assert_eq!(stored_state(&accounts).sub_result, num1 - num2);
}

#[test]
fn test_three_step_scenario() {
    let program_id = [7u8; 32];
    let mut accounts = fresh_accounts(&program_id);
    assert_eq!(
        stored_state(&accounts),
        CalcResult {
            add_result: 0,
            sub_result: 0
        }
    );

    handle_instruction(&program_id, &mut accounts, &instruction_bytes(100, 30, 0)).unwrap();
    assert_eq!(
        stored_state(&accounts),
        CalcResult {
            add_result: 130,
            sub_result: 0
        }
    );

    handle_instruction(&program_id, &mut accounts, &instruction_bytes(100, 30, 1)).unwrap();
    assert_eq!(
        stored_state(&accounts),
        CalcResult {
            add_result: 130,
            sub_result: 70
        }
    );

    let result = handle_instruction(&program_id, &mut accounts, &instruction_bytes(30, 100, 1));
    assert_eq!(result, Err(CalcError::SubtractionUnderflow));
    assert_eq!(
        stored_state(&accounts),
        CalcResult {
            add_result: 130,
            sub_result: 70
        }
    );
}

#[test]
fn test_encode_exact_bytes() {
    let state = CalcResult {
        add_result: 0x0102_0304,
        sub_result: 5,
    };
    assert_eq!(encode_state(&state), vec![4, 3, 2, 1, 5, 0, 0, 0]);
}

#[test]
fn test_decode_exact_bytes() {
    let buffer = [4u8, 3, 2, 1, 5, 0, 0, 0];
    assert_eq!(
        decode_state(&buffer),
        Ok(CalcResult {
            add_result: 0x0102_0304,
            sub_result: 5
        })
    );
}

#[test]
fn test_state_round_trip() {
    let states = [
        CalcResult {
            add_result: 0,
            sub_result: 0,
        },
        CalcResult {
            add_result: 130,
            sub_result: 70,
        },
        CalcResult {
            add_result: u32::MAX,
            sub_result: u32::MAX,
        },
        CalcResult {
            add_result: 0xdead_beef,
            sub_result: 0x1234_5678,
        },
    ];
    for state in states {
        assert_eq!(decode_state(&encode_state(&state)), Ok(state));
    }
}

#[test]
fn test_decode_malformed_state() {
    assert_eq!(decode_state(&[]), Err(CalcError::MalformedState));
    assert_eq!(decode_state(&[0u8; 7]), Err(CalcError::MalformedState));
    assert_eq!(decode_state(&[0u8; 9]), Err(CalcError::MalformedState));
}

#[test]
fn test_decode_instruction_exact() {
    let data = instruction_bytes(0xfeed_f00d, 77, 1);
    assert_eq!(
        decode_instruction(&data),
        Ok(Instruction {
            operand_a: 0xfeed_f00d,
            operand_b: 77,
            operation: 1
        })
    );
}

#[test]
fn test_invalid_instruction_size() {
    let program_id = [0u8; 32];
    let mut accounts = fresh_accounts(&program_id);

    for len in [0usize, 4, 11, 13, 24] {
        let data = vec![0u8; len];
        let result = handle_instruction(&program_id, &mut accounts, &data);
        assert_eq!(result, Err(CalcError::InvalidInstructionSize));
        assert_eq!(accounts[0].data, vec![0; 8]);
    }
}

#[test]
fn test_missing_account() {
    let program_id = [0u8; 32];
    let mut accounts: Vec<Account> = Vec::new();
    let result = handle_instruction(&program_id, &mut accounts, &instruction_bytes(1, 2, 0));
    assert_eq!(result, Err(CalcError::MissingAccount));
    assert!(accounts.is_empty());
}

#[test]
fn test_unauthorized_account() {
    let program_id = [1u8; 32];
    let mut accounts = fresh_accounts(&[2u8; 32]);

    // A valid addition is still rejected on ownership alone.
    let result = handle_instruction(&program_id, &mut accounts, &instruction_bytes(100, 30, 0));
    assert_eq!(result, Err(CalcError::UnauthorizedAccount));
    assert_eq!(accounts[0].data, vec![0; 8]);

    // The authorization gate also precedes the operation check.
    let result = handle_instruction(&program_id, &mut accounts, &instruction_bytes(100, 30, 9));
    assert_eq!(result, Err(CalcError::UnauthorizedAccount));
    assert_eq!(accounts[0].data, vec![0; 8]);
}

#[test]
fn test_malformed_account_state() {
    let program_id = [0u8; 32];
    for len in [0usize, 7, 9] {
        let mut accounts = vec![Account {
            owner: program_id.to_vec(),
            data: vec![0; len],
        }];
        let result = handle_instruction(&program_id, &mut accounts, &instruction_bytes(1, 2, 0));
        assert_eq!(result, Err(CalcError::MalformedState));
        assert_eq!(accounts[0].data, vec![0; len]);
    }
}

#[test]
fn test_unsupported_operation() {
    let program_id = [0u8; 32];
    let mut accounts = fresh_accounts(&program_id);
    for operation in [2u32, 3, u32::MAX] {
        let result =
            handle_instruction(&program_id, &mut accounts, &instruction_bytes(1, 2, operation));
        assert_eq!(result, Err(CalcError::UnsupportedOperation));
        assert_eq!(accounts[0].data, vec![0; 8]);
    }
}

#[test]
fn test_subtraction_underflow_leaves_state() {
    let program_id = [0u8; 32];
    let mut accounts = fresh_accounts(&program_id);
    handle_instruction(&program_id, &mut accounts, &instruction_bytes(5, 3, 1)).unwrap();
    let before = accounts[0].data.clone();

    let result = handle_instruction(&program_id, &mut accounts, &instruction_bytes(3, 5, 1));
    assert_eq!(result, Err(CalcError::SubtractionUnderflow));
    assert_eq!(accounts[0].data, before);
}

#[test]
fn test_addition_wraps() {
    let program_id = [0u8; 32];
    let mut accounts = fresh_accounts(&program_id);

    handle_instruction(
        &program_id,
        &mut accounts,
        &instruction_bytes(u32::MAX, 1, 0),
    )
    .unwrap();
    assert_eq!(stored_state(&accounts).add_result, 0);

    handle_instruction(
        &program_id,
        &mut accounts,
        &instruction_bytes(0x8000_0000, 0x8000_0001, 0),
    )
    .unwrap();
    assert_eq!(stored_state(&accounts).add_result, 1);
}

#[test]
fn test_apply_operation_touches_one_field() {
    let state = CalcResult {
        add_result: 11,
        sub_result: 22,
    };
    assert_eq!(
        apply_operation(
            &state,
            &Instruction {
                operand_a: 40,
                operand_b: 2,
                operation: 0
            }
        ),
        Ok(CalcResult {
            add_result: 42,
            sub_result: 22
        })
    );
    assert_eq!(
        apply_operation(
            &state,
            &Instruction {
                operand_a: 40,
                operand_b: 2,
                operation: 1
            }
        ),
        Ok(CalcResult {
            add_result: 11,
            sub_result: 38
        })
    );
    assert_eq!(
        apply_operation(
            &state,
            &Instruction {
                operand_a: 2,
                operand_b: 40,
                operation: 1
            }
        ),
        Err(CalcError::SubtractionUnderflow)
    );
}

#[test]
fn test_validate_owner() {
    let account = Account {
        owner: vec![9, 9, 9],
        data: vec![0; 8],
    };
    assert_eq!(validate_owner(&account, &[9, 9, 9]), Ok(()));
    assert_eq!(
        validate_owner(&account, &[9, 9, 8]),
        Err(CalcError::UnauthorizedAccount)
    );
    assert_eq!(
        validate_owner(&account, &[9, 9]),
        Err(CalcError::UnauthorizedAccount)
    );
}

#[test]
fn test_untouched_accounts_after_success() {
    let program_id = [3u8; 32];
    let mut accounts = vec![
        Account {
            owner: program_id.to_vec(),
            data: vec![0; 8],
        },
        Account {
            owner: vec![4u8; 32],
            data: vec![1, 2, 3],
        },
    ];
    handle_instruction(&program_id, &mut accounts, &instruction_bytes(8, 9, 0)).unwrap();
    assert_eq!(stored_state(&accounts).add_result, 17);
    assert_eq!(accounts[1].data, vec![1, 2, 3]);
    assert_eq!(accounts[1].owner, vec![4u8; 32]);
}
