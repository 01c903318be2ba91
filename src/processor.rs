use vstd::prelude::*;
use crate::domain::{Transacao, TransacaoJson, candidate_ok, is_kind_code, is_valid_description, effect_of};
use crate::errors::{TransactionError, ExtratoError};
use crate::ledger::{Ledger, Extrato, admits, is_statement};

verus! {

/// The answer to an accepted movement: the client's limit and new balance.
pub struct TransacaoResponse {
    pub limite: i32,
    pub saldo: i32,
}

/// Validates a submitted movement and applies it to the client's account.
/// Validation comes first and touches nothing; then the ledger applies the
/// movement in one step or refuses it. Any error leaves the ledger as it was.
pub fn register_transacao(
    ledger: &mut Ledger,
    cliente_id: i16,
    transacao: TransacaoJson,
    agora: i64,
) -> (r: Result<TransacaoResponse, TransactionError>)
    requires
        old(ledger).wf(),
    ensures
        final(ledger).wf(),
        r is Err ==> *final(ledger) == *old(ledger),
        !is_kind_code(transacao.tipo) ==> (r matches Err(TransactionError::InvalidKind(_))),
        is_kind_code(transacao.tipo) && !is_valid_description(transacao.descricao@)
            ==> (r matches Err(TransactionError::InvalidDescription(_))),
        is_kind_code(transacao.tipo) && is_valid_description(transacao.descricao@) && transacao.valor <= 0
            ==> (r matches Err(TransactionError::InvalidValue(_))),
        candidate_ok(transacao) && !old(ledger).has(cliente_id)
            ==> (r matches Err(TransactionError::ClientNotFound)),
        candidate_ok(transacao) && old(ledger).has(cliente_id) ==> ({
            let c = old(ledger).conta(cliente_id);
            let effect = effect_of(transacao.tipo, transacao.valor);
            let novo = c.saldo + effect;
            let ok = admits(c.saldo as int, c.limite as int, effect);
            &&& !ok ==> (r matches Err(TransactionError::LimitExceeded))
            &&& ok && (novo > i32::MAX || old(ledger).next_id() == i32::MAX)
                ==> (r matches Err(TransactionError::StoreError))
            &&& ok && novo <= i32::MAX && old(ledger).next_id() < i32::MAX ==> {
                &&& r matches Ok(resp) && resp.limite == c.limite && resp.saldo == novo
                &&& final(ledger).applied(
                    *old(ledger),
                    cliente_id,
                    transacao.valor,
                    transacao.tipo,
                    transacao.descricao@,
                    agora,
                )
            }
        }),
{
    let nova = match Transacao::try_from(transacao) {
        Ok(t) => t,
        Err(e) => {
            return Err(e);
        },
    };
    match ledger.apply(cliente_id, nova, agora) {
        Ok((limite, saldo)) => Ok(TransacaoResponse { limite, saldo }),
        Err(e) => Err(e),
    }
}

/// The client's statement at the instant `agora`.
pub fn get_extrato(ledger: &Ledger, cliente_id: i16, agora: i64) -> (r: Result<Extrato, ExtratoError>)
    requires
        ledger.wf(),
    ensures
        r is Ok <==> ledger.has(cliente_id),
        r matches Err(e) ==> e == ExtratoError::NotFound,
        r matches Ok(x) ==> is_statement(*ledger, cliente_id, agora, x),
{
    ledger.snapshot(cliente_id, agora)
}

} // verus!
