use vstd::prelude::*;
use vstd::string::*;
use vstd::utf8::encode_utf8;
use crate::errors::TransactionError;

verus! {

/// The digit that stands for `d` (with `d < 10`).
pub open spec fn digit_char(d: nat) -> char {
    if d == 0 { '0' }
    else if d == 1 { '1' }
    else if d == 2 { '2' }
    else if d == 3 { '3' }
    else if d == 4 { '4' }
    else if d == 5 { '5' }
    else if d == 6 { '6' }
    else if d == 7 { '7' }
    else if d == 8 { '8' }
    else { '9' }
}

/// The decimal notation of `n`, without leading zeros.
pub open spec fn decimal(n: nat) -> Seq<char>
    decreases n,
{
    if n < 10 {
        seq![digit_char(n)]
    } else {
        decimal(n / 10).push(digit_char(n % 10))
    }
}

/// Relies on `char::to_string` (through `Display` for `char`): the string
/// holding that one character.
#[verifier::external_body]
fn char_text(c: char) -> (r: String)
    ensures
        r@ == seq![c],
{
    c.to_string()
}

/// Relies on `usize::to_string` (through `Display` for `usize`): the decimal
/// notation of the number.
#[verifier::external_body]
fn usize_text(n: usize) -> (r: String)
    ensures
        r@ == decimal(n as nat),
{
    n.to_string()
}

/// Whether `c` is the code of a movement kind: `'c'` (credit) or `'d'` (debit).
pub open spec fn is_kind_code(c: char) -> bool {
    c == 'c' || c == 'd'
}

/// The message of a rejected kind code.
pub open spec fn kind_error_text(c: char) -> Seq<char> {
    seq![c] + " is not a valid transaction type"@
}

/// The kind of a movement: credit (`'c'`) or debit (`'d'`).
#[derive(Debug, Clone, Copy)]
pub struct TransacaoTipo(char);

impl TransacaoTipo {
    /// The kind code.
    pub closed spec fn code(&self) -> char {
        self.0
    }

    /// A kind always holds one of the two codes.
    pub closed spec fn wf(&self) -> bool {
        is_kind_code(self.0)
    }

    pub fn new(c: char) -> (r: Result<TransacaoTipo, String>)
        ensures
            is_kind_code(c) <==> r is Ok,
            r matches Ok(t) ==> t.code() == c && t.wf(),
            r matches Err(m) ==> m@ == kind_error_text(c),
    {
        if c == 'c' || c == 'd' {
            Ok(TransacaoTipo(c))
        } else {
            let mut m = char_text(c);
            m.append(" is not a valid transaction type");
            Err(m)
        }
    }

    pub fn to_string(&self) -> (r: String)
        ensures
            r@ == seq![self.code()],
    {
        char_text(self.0)
    }

    pub fn to_char(&self) -> (r: char)
        ensures
            r == self.code(),
    {
        self.0
    }
}

/// The length of a text in bytes, as UTF-8.
pub open spec fn byte_len(s: Seq<char>) -> nat {
    encode_utf8(s).len()
}

/// Relies on `String::len`: the length of the text in bytes, as UTF-8.
#[verifier::external_body]
fn text_len(s: &String) -> (r: usize)
    ensures
        r as nat == byte_len(s@),
{
    s.len()
}

/// Whether `s` is acceptable as a description: 1 to 10 bytes long.
pub open spec fn is_valid_description(s: Seq<char>) -> bool {
    1 <= byte_len(s) <= 10
}

/// The message of a rejected description whose length is `n` bytes.
pub open spec fn description_error_text(n: nat) -> Seq<char> {
    "Description length must be between 1 and 10 characters, got "@ + decimal(n)
}

/// The free-text description of a movement, 1 to 10 bytes long.
#[derive(Debug, Clone)]
pub struct TransacaoDescricao(String);

impl TransacaoDescricao {
    /// The text.
    pub closed spec fn text(&self) -> Seq<char> {
        self.0@
    }

    pub fn new(s: String) -> (r: Result<TransacaoDescricao, String>)
        ensures
            is_valid_description(s@) <==> r is Ok,
            r matches Ok(d) ==> d.text() == s@,
            r matches Err(m) ==> m@ == description_error_text(byte_len(s@)),
    {
        let n = text_len(&s);
        if n >= 1 && n <= 10 {
            Ok(TransacaoDescricao(s))
        } else {
            let mut m = String::from_str("Description length must be between 1 and 10 characters, got ");
            let digits = usize_text(n);
            m.append(digits.as_str());
            Err(m)
        }
    }

    pub fn as_str(&self) -> (r: &str)
        ensures
            r@ == self.text(),
    {
        self.0.as_str()
    }
}

/// A movement as a caller submits it: nothing about it is checked yet.
pub struct TransacaoJson {
    pub valor: i32,
    pub tipo: char,
    pub descricao: String,
}

/// A validated movement. `id` is its sequence number and `realizada_em` the
/// instant at which it was recorded; both are assigned by the ledger, and
/// stay 0 until then, as does `cliente_id`.
pub struct Transacao {
    pub id: i32,
    pub valor: i32,
    pub tipo: TransacaoTipo,
    pub descricao: TransacaoDescricao,
    pub cliente_id: i16,
    pub realizada_em: i64,
}

impl Transacao {
    /// A movement is well formed when its kind is one of the two codes, its
    /// value is positive and its description is 1 to 10 bytes long.
    pub open spec fn wf(&self) -> bool {
        &&& self.tipo.wf()
        &&& self.valor > 0
        &&& is_valid_description(self.descricao.text())
    }

    /// The effect of the movement on the balance: `+valor` for a credit,
    /// `-valor` for a debit.
    pub open spec fn signed_effect(&self) -> int {
        effect_of(self.tipo.code(), self.valor)
    }

    /// Validates a submitted movement: its kind first, then its description,
    /// then its value. The sequence number, client and instant stay 0.
    pub fn try_from(value: TransacaoJson) -> (r: Result<Transacao, TransactionError>)
        ensures
            !is_kind_code(value.tipo) ==> (r matches Err(TransactionError::InvalidKind(m))
                && m@ == "Failed to parse the transaction type: "@ + kind_error_text(value.tipo)),
            is_kind_code(value.tipo) && !is_valid_description(value.descricao@)
                ==> (r matches Err(TransactionError::InvalidDescription(m))
                && m@ == "Failed to parse the transaction description: "@
                + description_error_text(byte_len(value.descricao@))),
            is_kind_code(value.tipo) && is_valid_description(value.descricao@) && value.valor <= 0
                ==> (r matches Err(TransactionError::InvalidValue(m))
                && m@ == value_error_text()),
            candidate_ok(value) ==> (r matches Ok(t) && t.wf() && t.id == 0 && t.valor == value.valor
                && t.tipo.code() == value.tipo && t.descricao.text() == value.descricao@
                && t.cliente_id == 0 && t.realizada_em == 0),
    {
        let tipo = match TransacaoTipo::new(value.tipo) {
            Ok(t) => t,
            Err(e) => {
                let mut m = String::from_str("Failed to parse the transaction type: ");
                m.append(e.as_str());
                return Err(TransactionError::InvalidKind(m));
            },
        };
        let descricao = match TransacaoDescricao::new(value.descricao) {
            Ok(d) => d,
            Err(e) => {
                let mut m = String::from_str("Failed to parse the transaction description: ");
                m.append(e.as_str());
                return Err(TransactionError::InvalidDescription(m));
            },
        };
        if value.valor <= 0 {
            return Err(TransactionError::InvalidValue(String::from_str(
                "Transaction value must be a positive integer",
            )));
        }
        Ok(Transacao { id: 0, valor: value.valor, tipo, descricao, cliente_id: 0, realizada_em: 0 })
    }
}

/// The effect on the balance of a movement of kind code `code` and value
/// `valor`: `+valor` for a credit, `-valor` for a debit.
pub open spec fn effect_of(code: char, valor: i32) -> int {
    if code == 'c' {
        valor as int
    } else {
        -(valor as int)
    }
}

/// The message of a rejected value.
pub open spec fn value_error_text() -> Seq<char> {
    "Transaction value must be a positive integer"@
}

/// Whether a submitted movement passes validation.
pub open spec fn candidate_ok(value: TransacaoJson) -> bool {
    &&& is_kind_code(value.tipo)
    &&& is_valid_description(value.descricao@)
    &&& value.valor > 0
}

} // verus!
