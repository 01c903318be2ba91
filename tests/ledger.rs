use rinha::domain::TransacaoJson;
use rinha::errors::{error_chain_fmt, ExtratoError, TransactionError};
use rinha::ledger::{Extrato, Ledger};
use rinha::processor::{get_extrato, register_transacao};

fn json(valor: i32, tipo: char, descricao: &str) -> TransacaoJson {
    TransacaoJson { valor, tipo, descricao: descricao.to_string() }
}

fn ledger_with(id: i16, limite: i32) -> Ledger {
    let mut l = Ledger::new();
    assert!(l.provision(id, limite));
    l
}

fn listed(x: &Extrato) -> Vec<(i32, String, String, i64)> {
    x.ultimas_transacoes
        .iter()
        .map(|e| (e.valor, e.tipo.clone(), e.descricao.clone(), e.realizada_em))
        .collect()
}

#[test]
fn debit_within_limit_succeeds() {
    let mut l = ledger_with(1, 100);
    let r = register_transacao(&mut l, 1, json(50, 'd', "first"), 10).unwrap();
    assert_eq!((r.limite, r.saldo), (100, -50));
}

#[test]
fn debit_beyond_limit_is_refused_and_changes_nothing() {
    let mut l = ledger_with(1, 100);
    register_transacao(&mut l, 1, json(50, 'd', "first"), 10).unwrap();
    let before = listed(&get_extrato(&l, 1, 20).unwrap());
    let r = register_transacao(&mut l, 1, json(60, 'd', "second"), 11);
    assert!(matches!(r, Err(TransactionError::LimitExceeded)));
    let x = get_extrato(&l, 1, 20).unwrap();
    assert_eq!(x.saldo.total, -50);
    assert_eq!(listed(&x), before);
}

#[test]
fn credit_raises_the_balance() {
    let mut l = ledger_with(1, 100);
    register_transacao(&mut l, 1, json(50, 'd', "first"), 10).unwrap();
    let _ = register_transacao(&mut l, 1, json(60, 'd', "second"), 11);
    let r = register_transacao(&mut l, 1, json(200, 'c', "salary"), 12).unwrap();
    assert_eq!((r.limite, r.saldo), (100, 150));
}

#[test]
fn empty_or_long_description_is_refused() {
    let mut l = ledger_with(1, 100);
    let r = register_transacao(&mut l, 1, json(10, 'c', ""), 10);
    assert!(matches!(r, Err(TransactionError::InvalidDescription(_))));
    let r = register_transacao(&mut l, 1, json(10, 'c', "12345678901"), 10);
    assert!(matches!(r, Err(TransactionError::InvalidDescription(_))));
    assert_eq!(get_extrato(&l, 1, 10).unwrap().ultimas_transacoes.len(), 0);
}

#[test]
fn unknown_client_is_not_found() {
    let mut l = ledger_with(1, 100);
    let r = register_transacao(&mut l, 999, json(10, 'c', "gift"), 10);
    assert!(matches!(r, Err(TransactionError::ClientNotFound)));
    assert!(matches!(get_extrato(&l, 999, 10), Err(ExtratoError::NotFound)));
}

#[test]
fn statement_after_three_submissions() {
    let mut l = ledger_with(1, 100);
    register_transacao(&mut l, 1, json(50, 'd', "first"), 10).unwrap();
    let _ = register_transacao(&mut l, 1, json(60, 'd', "second"), 11);
    register_transacao(&mut l, 1, json(200, 'c', "salary"), 12).unwrap();
    let x = get_extrato(&l, 1, 99).unwrap();
    assert_eq!(x.saldo.total, 150);
    assert_eq!(x.saldo.limite, 100);
    assert_eq!(x.saldo.data_extrato, 99);
    assert_eq!(
        listed(&x),
        vec![
            (200, "c".to_string(), "salary".to_string(), 12),
            (50, "d".to_string(), "first".to_string(), 10),
        ]
    );
}

#[test]
fn statement_lists_ten_newest_first() {
    let mut l = ledger_with(3, 0);
    for v in 1..=12 {
        // several movements share an instant: the later one is listed first
        register_transacao(&mut l, 3, json(v, 'c', "dep"), (v / 3) as i64).unwrap();
    }
    let x = get_extrato(&l, 3, 100).unwrap();
    let valores: Vec<i32> = x.ultimas_transacoes.iter().map(|e| e.valor).collect();
    assert_eq!(valores, vec![12, 11, 10, 9, 8, 7, 6, 5, 4, 3]);
    assert_eq!(x.saldo.total, 78);
}

#[test]
fn recorded_instants_never_go_back() {
    let mut l = ledger_with(2, 1000);
    register_transacao(&mut l, 2, json(1, 'c', "a"), 50).unwrap();
    register_transacao(&mut l, 2, json(2, 'c', "b"), 40).unwrap();
    let x = get_extrato(&l, 2, 60).unwrap();
    let inst: Vec<(i32, i64)> = x.ultimas_transacoes.iter().map(|e| (e.valor, e.realizada_em)).collect();
    assert_eq!(inst, vec![(2, 50), (1, 50)]);
}

#[test]
fn unit_debits_on_a_zero_limit_all_fail() {
    let mut l = ledger_with(4, 0);
    for k in 0..100 {
        let r = register_transacao(&mut l, 4, json(1, 'd', "d"), k);
        assert!(matches!(r, Err(TransactionError::LimitExceeded)));
    }
    let x = get_extrato(&l, 4, 0).unwrap();
    assert_eq!(x.saldo.total, 0);
    assert_eq!(x.ultimas_transacoes.len(), 0);
}

#[test]
fn unit_debits_stop_at_the_limit() {
    let mut l = ledger_with(4, 3);
    let mut accepted = 0;
    for k in 0..10 {
        if register_transacao(&mut l, 4, json(1, 'd', "d"), k).is_ok() {
            accepted += 1;
        }
    }
    assert_eq!(accepted, 3);
    assert_eq!(get_extrato(&l, 4, 0).unwrap().saldo.total, -3);
}

#[test]
fn balance_is_the_sum_of_applied_effects() {
    let mut l = ledger_with(5, 500);
    let moves = [(100, 'c'), (300, 'd'), (700, 'd'), (50, 'c'), (650, 'd'), (1, 'd')];
    let mut sum: i32 = 0;
    for (v, k) in moves {
        let effect = if k == 'c' { v } else { -v };
        if register_transacao(&mut l, 5, json(v, k, "m"), 1).is_ok() {
            sum += effect;
        }
        assert!(get_extrato(&l, 5, 1).unwrap().saldo.total >= -500);
    }
    assert_eq!(get_extrato(&l, 5, 1).unwrap().saldo.total, sum);
    assert_eq!(sum, -151);
}

#[test]
fn unrepresentable_balance_is_a_store_error() {
    let mut l = ledger_with(1, 0);
    register_transacao(&mut l, 1, json(i32::MAX, 'c', "big"), 1).unwrap();
    let r = register_transacao(&mut l, 1, json(1, 'c', "more"), 2);
    assert!(matches!(r, Err(TransactionError::StoreError)));
    let e = r.err().unwrap();
    assert!(e.is_retryable());
    assert_eq!(e.status_code(), 500);
    assert_eq!(get_extrato(&l, 1, 3).unwrap().saldo.total, i32::MAX);
}

#[test]
fn provisioning_refuses_taken_ids_and_negative_limits() {
    let mut l = Ledger::new();
    assert!(l.provision(1, 10));
    assert!(!l.provision(1, 20));
    assert!(!l.provision(2, -1));
    assert_eq!(get_extrato(&l, 1, 0).unwrap().saldo.limite, 10);
    assert!(get_extrato(&l, 2, 0).is_err());
}

#[test]
fn accounts_are_independent() {
    let mut l = ledger_with(1, 100);
    assert!(l.provision(2, 0));
    register_transacao(&mut l, 1, json(80, 'd', "x"), 1).unwrap();
    assert_eq!(get_extrato(&l, 2, 1).unwrap().saldo.total, 0);
    assert_eq!(get_extrato(&l, 2, 1).unwrap().ultimas_transacoes.len(), 0);
}

#[test]
fn status_codes() {
    assert_eq!(TransactionError::InvalidKind(String::new()).status_code(), 400);
    assert_eq!(TransactionError::InvalidDescription(String::new()).status_code(), 400);
    assert_eq!(TransactionError::InvalidValue(String::new()).status_code(), 400);
    assert_eq!(TransactionError::LimitExceeded.status_code(), 422);
    assert_eq!(TransactionError::ClientNotFound.status_code(), 404);
    assert_eq!(TransactionError::StoreError.status_code(), 500);
    assert!(!TransactionError::LimitExceeded.is_retryable());
    assert_eq!(ExtratoError::NotFound.status_code(), 404);
    assert_eq!(ExtratoError::UnexpectedError.status_code(), 500);
}

#[test]
fn error_chain_lists_causes() {
    let chain = vec!["outer".to_string(), "middle".to_string(), "root".to_string()];
    assert_eq!(error_chain_fmt(&chain), "outer\nCaused by: middle\nCaused by: root\n");
    assert_eq!(error_chain_fmt(&vec!["only".to_string()]), "only\n");
    assert_eq!(error_chain_fmt(&Vec::new()), "");
}
