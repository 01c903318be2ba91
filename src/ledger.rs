use vstd::prelude::*;
use vstd::string::*;
use crate::domain::{Transacao, effect_of};
use crate::errors::{TransactionError, ExtratoError};

verus! {

/// The most entries a statement lists.
pub const EXTRATO_LEN: usize = 10;

/// The sum of the signed effects of a sequence of movements.
pub open spec fn effects_sum(h: Seq<Transacao>) -> int
    decreases h.len(),
{
    if h.len() == 0 {
        0
    } else {
        effects_sum(h.drop_last()) + h.last().signed_effect()
    }
}

/// Whether `a` comes before `b` in recording order: an earlier instant, or
/// the same instant and a smaller sequence number.
pub open spec fn key_less(a: Transacao, b: Transacao) -> bool {
    a.realizada_em < b.realizada_em || (a.realizada_em == b.realizada_em && a.id < b.id)
}

/// The history is kept in recording order: sequence numbers strictly grow
/// and instants never go back.
pub open spec fn in_recording_order(h: Seq<Transacao>) -> bool {
    forall|i: int, j: int|
        0 <= i < j < h.len() ==> h[i].id < h[j].id && h[i].realizada_em <= h[j].realizada_em
}

/// The entries that a statement lists: the last ten movements (or all, if
/// fewer), most recent first.
pub open spec fn recent(h: Seq<Transacao>) -> Seq<Transacao> {
    let m = if h.len() < EXTRATO_LEN { h.len() } else { EXTRATO_LEN as nat };
    Seq::new(m, |k: int| h[h.len() - 1 - k])
}

/// The instant at which a movement submitted at `agora` is recorded: never
/// earlier than the last recorded one.
pub open spec fn stamp(h: Seq<Transacao>, agora: i64) -> i64 {
    if h.len() > 0 && h.last().realizada_em > agora {
        h.last().realizada_em
    } else {
        agora
    }
}

/// Whether a balance may take this effect without going below minus the limit.
pub open spec fn admits(saldo: int, limite: int, effect: int) -> bool {
    saldo + effect >= -limite
}

/// The balance part of a statement: the balance, the instant of the
/// statement and the limit.
pub struct Saldo {
    pub total: i32,
    pub data_extrato: i64,
    pub limite: i32,
}

/// One movement as a statement lists it: value, kind code, description and
/// the instant at which it was recorded.
pub struct TransacaoExtrato {
    pub valor: i32,
    pub tipo: String,
    pub descricao: String,
    pub realizada_em: i64,
}

/// A statement: the balance part and the latest movements, most recent first.
pub struct Extrato {
    pub saldo: Saldo,
    pub ultimas_transacoes: Vec<TransacaoExtrato>,
}

/// Whether a statement entry lists the movement `t`.
pub open spec fn shows(e: TransacaoExtrato, t: Transacao) -> bool {
    &&& e.valor == t.valor
    &&& e.tipo@ == seq![t.tipo.code()]
    &&& e.descricao@ == t.descricao.text()
    &&& e.realizada_em == t.realizada_em
}

/// Whether `x` is the client's statement at `agora`: its balance and limit,
/// and the entries of `recent` over its history.
pub open spec fn is_statement(l: Ledger, cliente_id: i16, agora: i64, x: Extrato) -> bool {
    let c = l.conta(cliente_id);
    let listed = recent(c.historico@);
    &&& x.saldo.total == c.saldo
    &&& x.saldo.limite == c.limite
    &&& x.saldo.data_extrato == agora
    &&& x.ultimas_transacoes@.len() == listed.len()
    &&& forall|k: int| 0 <= k < listed.len() ==> shows(#[trigger] x.ultimas_transacoes@[k], listed[k])
}

/// A client account: its limit, its balance and every movement applied to it,
/// in recording order.
pub struct Conta {
    pub id: i16,
    pub limite: i32,
    pub saldo: i32,
    pub historico: Vec<Transacao>,
}

impl Conta {
    /// The account's invariant, given the next sequence number of the ledger.
    pub open spec fn wf(&self, proximo_id: i32) -> bool {
        &&& self.limite >= 0
        &&& self.saldo == effects_sum(self.historico@)
        &&& self.saldo >= -self.limite
        &&& in_recording_order(self.historico@)
        &&& forall|k: int| 0 <= k < self.historico@.len() ==> {
            &&& (#[trigger] self.historico@[k]).wf()
            &&& self.historico@[k].cliente_id == self.id
            &&& self.historico@[k].id < proximo_id
        }
    }
}

/// An account stays well formed as the ledger's next sequence number grows.
proof fn lemma_conta_wf_grows(c: Conta, a: i32, b: i32)
    requires
        c.wf(a),
        a <= b,
    ensures
        c.wf(b),
{
}

/// A store of client accounts. A movement's entry and the balance change it
/// causes are made in one step or not at all, and `&mut self` makes the
/// writers to a ledger take turns, so no two applies ever see the same
/// balance. A ledger per client keeps writers to different clients apart.
pub struct Ledger {
    contas: Vec<Conta>,
    proximo_id: i32,
}

impl Ledger {
    /// The accounts, in the order they were provisioned.
    pub closed spec fn accounts(&self) -> Seq<Conta> {
        self.contas@
    }

    /// The sequence number that the next recorded movement gets.
    pub closed spec fn next_id(&self) -> i32 {
        self.proximo_id
    }

    pub open spec fn wf(&self) -> bool {
        &&& self.next_id() >= 1
        &&& forall|i: int| 0 <= i < self.accounts().len() ==> (#[trigger] self.accounts()[i]).wf(self.next_id())
        &&& forall|i: int, j: int|
            0 <= i < self.accounts().len() && 0 <= j < self.accounts().len() && i != j
                ==> self.accounts()[i].id != self.accounts()[j].id
    }

    /// Whether a client with this id is provisioned.
    pub open spec fn has(&self, id: i16) -> bool {
        exists|i: int| 0 <= i < self.accounts().len() && self.accounts()[i].id == id
    }

    /// The position of the client's account.
    pub open spec fn pos(&self, id: i16) -> int {
        choose|i: int| 0 <= i < self.accounts().len() && self.accounts()[i].id == id
    }

    /// The client's account.
    pub open spec fn conta(&self, id: i16) -> Conta {
        self.accounts()[self.pos(id)]
    }

    pub fn new() -> (r: Ledger)
        ensures
            r.wf(),
            r.accounts().len() == 0,
            r.next_id() == 1,
    {
        Ledger { contas: Vec::new(), proximo_id: 1 }
    }

    /// Finds the position of the client's account.
    fn find(&self, id: i16) -> (r: Option<usize>)
        requires
            self.wf(),
        ensures
            r is Some <==> self.has(id),
            r matches Some(i) ==> i == self.pos(id),
    {
        let mut i: usize = 0;
        while i < self.contas.len()
            invariant
                self.wf(),
                i <= self.contas@.len(),
                forall|k: int| 0 <= k < i ==> self.contas@[k].id != id,
            decreases self.contas@.len() - i,
        {
            if self.contas[i].id == id {
                proof {
                    let p = self.pos(id);
                    assert(self.has(id));
                    assert(self.accounts()[p].id == id);
                    assert(self.accounts()[p].id == self.accounts()[i as int].id);
                }
                return Some(i);
            }
            i = i + 1;
        }
        None
    }

    /// Provisions a client with a limit and a zero balance. Fails, changing
    /// nothing, when the id is taken or the limit is negative.
    pub fn provision(&mut self, id: i16, limite: i32) -> (r: bool)
        requires
            old(self).wf(),
        ensures
            final(self).wf(),
            r <==> !old(self).has(id) && limite >= 0,
            !r ==> *final(self) == *old(self),
            r ==> final(self).next_id() == old(self).next_id(),
            r ==> final(self).accounts().len() == old(self).accounts().len() + 1,
            r ==> final(self).accounts().drop_last() == old(self).accounts(),
            r ==> ({
                let c = final(self).accounts().last();
                c.id == id && c.limite == limite && c.saldo == 0 && c.historico@.len() == 0
            }),
    {
        if limite < 0 {
            return false;
        }
        if self.find(id).is_some() {
            return false;
        }
        let c = Conta { id, limite, saldo: 0, historico: Vec::new() };
        proof {
            assert(effects_sum(c.historico@) == 0);
        }
        self.contas.push(c);
        proof {
            assert(final(self).contas@.drop_last() == old(self).contas@);
            let n = old(self).contas@.len() as int;
            assert(final(self).contas@[n].wf(self.proximo_id));
            assert forall|i: int| 0 <= i < n implies #[trigger] final(self).accounts()[i].wf(self.proximo_id) by {
                assert(final(self).accounts()[i] == old(self).accounts()[i]);
            }
            assert forall|i: int| 0 <= i < n implies final(self).accounts()[i].id != id by {
                assert(final(self).accounts()[i] == old(self).accounts()[i]);
                if old(self).accounts()[i].id == id {
                    assert(old(self).has(id));
                }
            }
            let a = final(self).accounts();
            assert forall|i: int, j: int|
                0 <= i < a.len() && 0 <= j < a.len() && i != j implies a[i].id != a[j].id by {
                if i < n && j < n {
                    assert(a[i] == old(self).accounts()[i]);
                    assert(a[j] == old(self).accounts()[j]);
                }
            }
        }
        true
    }

    /// Whether `self` is `old` after a movement of value `valor`, kind code
    /// `code` and description `text` was recorded for the client, under the
    /// sequence number `old.next_id()` and at `stamp(.., agora)`, with the
    /// balance moved by its signed effect; every other account unchanged.
    pub open spec fn applied(
        &self,
        old: Ledger,
        cliente_id: i16,
        valor: i32,
        code: char,
        text: Seq<char>,
        agora: i64,
    ) -> bool {
        let p = old.pos(cliente_id);
        let c = old.conta(cliente_id);
        let n = self.accounts()[p];
        let e = n.historico@.last();
        &&& self.next_id() == old.next_id() + 1
        &&& self.accounts().len() == old.accounts().len()
        &&& forall|i: int| 0 <= i < old.accounts().len() && i != p ==> self.accounts()[i] == old.accounts()[i]
        &&& n.id == c.id
        &&& n.limite == c.limite
        &&& n.saldo == c.saldo + effect_of(code, valor)
        &&& n.historico@.len() == c.historico@.len() + 1
        &&& n.historico@.drop_last() == c.historico@
        &&& e.id == old.next_id()
        &&& e.valor == valor
        &&& e.tipo.code() == code
        &&& e.descricao.text() == text
        &&& e.cliente_id == cliente_id
        &&& e.realizada_em == stamp(c.historico@, agora)
    }

    /// Applies a validated movement to the client's account as one step: the
    /// movement is recorded and the balance takes its signed effect, or
    /// nothing changes at all. A debit that would take the balance below
    /// minus the limit is refused with `LimitExceeded`. On success the
    /// result is the account's limit and new balance.
    pub fn apply(&mut self, cliente_id: i16, transacao: Transacao, agora: i64) -> (r: Result<(i32, i32), TransactionError>)
        requires
            old(self).wf(),
            transacao.wf(),
        ensures
            final(self).wf(),
            r is Err ==> *final(self) == *old(self),
            !old(self).has(cliente_id) ==> r matches Err(TransactionError::ClientNotFound),
            old(self).has(cliente_id) ==> ({
                let c = old(self).conta(cliente_id);
                let novo = c.saldo + transacao.signed_effect();
                let ok = admits(c.saldo as int, c.limite as int, transacao.signed_effect());
                &&& !ok ==> (r matches Err(TransactionError::LimitExceeded))
                &&& ok && (novo > i32::MAX || old(self).next_id() == i32::MAX)
                    ==> (r matches Err(TransactionError::StoreError))
                &&& ok && novo <= i32::MAX && old(self).next_id() < i32::MAX ==> {
                    &&& r == Ok::<(i32, i32), TransactionError>((c.limite, novo as i32))
                    &&& final(self).applied(*old(self), cliente_id, transacao.valor, transacao.tipo.code(), transacao.descricao.text(), agora)
                }
            }),
    {
        let i = match self.find(cliente_id) {
            Some(i) => i,
            None => {
                return Err(TransactionError::ClientNotFound);
            },
        };
        let limite = self.contas[i].limite;
        let saldo = self.contas[i].saldo;
        let effect: i64 = if transacao.tipo.to_char() == 'c' {
            transacao.valor as i64
        } else {
            -(transacao.valor as i64)
        };
        let novo: i64 = saldo as i64 + effect;
        if novo < -(limite as i64) {
            return Err(TransactionError::LimitExceeded);
        }
        if novo > i32::MAX as i64 || self.proximo_id == i32::MAX {
            return Err(TransactionError::StoreError);
        }
        let n = self.contas[i].historico.len();
        let at: i64 = if n > 0 && self.contas[i].historico[n - 1].realizada_em > agora {
            self.contas[i].historico[n - 1].realizada_em
        } else {
            agora
        };
        let entry = Transacao {
            id: self.proximo_id,
            valor: transacao.valor,
            tipo: transacao.tipo,
            descricao: transacao.descricao,
            cliente_id,
            realizada_em: at,
        };
        let ghost h0 = self.contas@[i as int].historico@;
        self.contas[i].historico.push(entry);
        self.contas[i].saldo = novo as i32;
        self.proximo_id = self.proximo_id + 1;
        proof {
            let o = *old(self);
            let h = self.contas@[i as int].historico@;
            assert(h.drop_last() == h0);
            assert(self.contas@[i as int].wf(self.proximo_id));
            assert forall|k: int| 0 <= k < self.contas@.len() implies #[trigger] self.contas@[k].wf(self.proximo_id) by {
                if k != i {
                    lemma_conta_wf_grows(o.contas@[k], o.proximo_id, self.proximo_id);
                }
            }
        }
        Ok((limite, novo as i32))
    }

    /// The client's statement at the instant `agora`: balance and limit,
    /// and the latest ten movements (all, if fewer), most recent first. It
    /// is read from one state of the ledger, so the two parts always agree.
    pub fn snapshot(&self, cliente_id: i16, agora: i64) -> (r: Result<Extrato, ExtratoError>)
        requires
            self.wf(),
        ensures
            r is Ok <==> self.has(cliente_id),
            r matches Err(e) ==> e == ExtratoError::NotFound,
            r matches Ok(x) ==> is_statement(*self, cliente_id, agora, x),
    {
        let i = match self.find(cliente_id) {
            Some(i) => i,
            None => {
                return Err(ExtratoError::NotFound);
            },
        };
        let conta = &self.contas[i];
        let n = conta.historico.len();
        let m: usize = if n < EXTRATO_LEN { n } else { EXTRATO_LEN };
        let ghost listed = recent(conta.historico@);
        let mut ultimas: Vec<TransacaoExtrato> = Vec::new();
        let mut k: usize = 0;
        while k < m
            invariant
                n == conta.historico@.len(),
                m <= n,
                m == listed.len(),
                listed == recent(conta.historico@),
                k <= m,
                ultimas@.len() == k,
                forall|j: int| 0 <= j < k ==> shows(#[trigger] ultimas@[j], listed[j]),
            decreases m - k,
        {
            let t = &conta.historico[n - 1 - k];
            let e = TransacaoExtrato {
                valor: t.valor,
                tipo: t.tipo.to_string(),
                descricao: String::from_str(t.descricao.as_str()),
                realizada_em: t.realizada_em,
            };
            ultimas.push(e);
            k = k + 1;
        }
        Ok(Extrato {
            saldo: Saldo { total: conta.saldo, data_extrato: agora, limite: conta.limite },
            ultimas_transacoes: ultimas,
        })
    }
}

} // verus!
