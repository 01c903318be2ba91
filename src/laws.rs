use vstd::prelude::*;
use crate::ledger::{Ledger, EXTRATO_LEN, effects_sum, key_less, recent, admits};

verus! {

/// In every reachable state, a client's balance is the sum of the signed
/// effects of all movements applied to the account, and it is not below
/// minus the limit. (`Ledger::new` and `provision` establish this, and
/// `apply` keeps it.)
pub proof fn lemma_balance_is_sum_of_history(l: Ledger, cliente_id: i16)
    requires
        l.wf(),
        l.has(cliente_id),
    ensures
        l.conta(cliente_id).saldo == effects_sum(l.conta(cliente_id).historico@),
        l.conta(cliente_id).saldo >= -l.conta(cliente_id).limite,
{
    let p = l.pos(cliente_id);
    assert(l.accounts()[p].wf(l.next_id()));
}

/// A statement lists the client's movements strictly from the latest to the
/// earliest by instant and then by sequence number, at most ten of them:
/// all of them when there are ten or fewer, and otherwise ten that each come
/// after every movement left out.
pub proof fn lemma_extrato_order(l: Ledger, cliente_id: i16)
    requires
        l.wf(),
        l.has(cliente_id),
    ensures
        ({
            let h = l.conta(cliente_id).historico@;
            let listed = recent(h);
            &&& listed.len() == if h.len() < EXTRATO_LEN { h.len() } else { EXTRATO_LEN as nat }
            &&& forall|k: int| 0 <= k < listed.len() ==> #[trigger] listed[k] == h[h.len() - 1 - k]
            &&& forall|i: int, j: int| 0 <= i < j < listed.len() ==> key_less(listed[j], listed[i])
            &&& forall|j: int, k: int|
                0 <= j < h.len() - listed.len() && 0 <= k < listed.len() ==> key_less(h[j], listed[k])
        }),
{
    let p = l.pos(cliente_id);
    assert(l.accounts()[p].wf(l.next_id()));
}

/// How many of `n` debits of 1, applied one after another to a balance
/// `saldo` with limit `limite`, the overdraft rule accepts.
pub open spec fn unit_debits_accepted(saldo: int, limite: int, n: nat) -> nat
    decreases n,
{
    if n == 0 {
        0
    } else if admits(saldo, limite, -1) {
        1 + unit_debits_accepted(saldo - 1, limite, (n - 1) as nat)
    } else {
        unit_debits_accepted(saldo, limite, (n - 1) as nat)
    }
}

/// Applies to one account take turns, so `n` debits of 1 submitted at once
/// are decided one after another: exactly as many succeed as the limit
/// admits, the smaller of `n` and `saldo + limite`. With a limit and a
/// balance of 0, none does.
pub proof fn lemma_unit_debits_take_turns(saldo: int, limite: int, n: nat)
    requires
        saldo >= -limite,
    ensures
        unit_debits_accepted(saldo, limite, n) == if n < saldo + limite { n as int } else { saldo + limite },
        saldo == 0 && limite == 0 ==> unit_debits_accepted(saldo, limite, n) == 0,
    decreases n,
{
    if n > 0 {
        if admits(saldo, limite, -1) {
            lemma_unit_debits_take_turns(saldo - 1, limite, (n - 1) as nat);
        } else {
            lemma_unit_debits_take_turns(saldo, limite, (n - 1) as nat);
        }
    }
}

} // verus!
