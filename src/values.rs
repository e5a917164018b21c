use vstd::prelude::*;
use crate::strings::{decimal_of, push_decimal, push_signed_decimal, signed_decimal_of};
use vstd::string::*;

verus! {

/// A column value handed to the database as a bind parameter. Every variant but
/// `None` carries the value's text; the variant says how the statement casts it.
#[derive(Debug, Clone)]
pub enum DatabaseValue {
    Null,
    Str(&'static str),
    String(String),
    Int(String),
    Int64(String),
    Float(String),
    Boolean(String),
    DateTime(String),
}

/// The text of a value, if it has one.
pub open spec fn opt_text(o: Option<String>) -> Option<Seq<char>> {
    match o {
        Some(s) => Some(s@),
        None => None,
    }
}

/// A value as the contracts see it: its variant's tag (0 for `Null`, then 1 to 7
/// in the order of declaration) and the text that is bound for it.
pub type ValueView = (nat, Option<Seq<char>>);

/// A copy of an optional text.
pub fn copy_text(o: &Option<String>) -> (r: Option<String>)
    ensures
        opt_text(r) == opt_text(*o),
{
    match o {
        Some(s) => Some(s.clone()),
        None => None,
    }
}

/// The texts written one after another.
pub open spec fn concat_of(pieces: Seq<String>) -> Seq<char>
    decreases pieces.len(),
{
    if pieces.len() == 0 {
        Seq::empty()
    } else {
        concat_of(pieces.drop_last()) + pieces.last()@
    }
}

impl View for DatabaseValue {
    type V = ValueView;

    open spec fn view(&self) -> ValueView {
        (self.tag(), self.bound_text())
    }
}

/// The SQL type a value of tag `tag` is cast to in an INSERT, if any.
pub open spec fn cast_of_tag(tag: nat) -> Option<Seq<char>> {
    if tag == 7 {
        Some("TIMESTAMP"@)
    } else if tag == 3 {
        Some("INTEGER"@)
    } else if tag == 4 {
        Some("BIGINT"@)
    } else if tag == 5 {
        Some("FLOAT"@)
    } else if tag == 6 {
        Some("BOOLEAN"@)
    } else {
        None
    }
}

/// The text that stands for a value at bind position `n` in an INSERT's VALUES
/// list: NULL for a null, else the placeholder, cast where the variant asks.
pub open spec fn insert_slot_of(v: ValueView, n: nat) -> Seq<char> {
    if v.0 == 0 {
        "NULL"@
    } else {
        match cast_of_tag(v.0) {
            Some(t) => "CAST($"@ + decimal_of(n) + " AS "@ + t + ")"@,
            None => "$"@ + decimal_of(n),
        }
    }
}

impl DatabaseValue {
    pub open spec fn tag(&self) -> nat {
        match self {
            DatabaseValue::Null => 0,
            DatabaseValue::Str(_) => 1,
            DatabaseValue::String(_) => 2,
            DatabaseValue::Int(_) => 3,
            DatabaseValue::Int64(_) => 4,
            DatabaseValue::Float(_) => 5,
            DatabaseValue::Boolean(_) => 6,
            DatabaseValue::DateTime(_) => 7,
        }
    }

    /// A copy of the value.
    pub fn duplicate(&self) -> (r: DatabaseValue)
        ensures
            r@ == self@,
    {
        match self {
            DatabaseValue::Null => DatabaseValue::Null,
            DatabaseValue::Str(s) => DatabaseValue::Str(s),
            DatabaseValue::String(s) => DatabaseValue::String(s.clone()),
            DatabaseValue::Int(s) => DatabaseValue::Int(s.clone()),
            DatabaseValue::Int64(s) => DatabaseValue::Int64(s.clone()),
            DatabaseValue::Float(s) => DatabaseValue::Float(s.clone()),
            DatabaseValue::Boolean(s) => DatabaseValue::Boolean(s.clone()),
            DatabaseValue::DateTime(s) => DatabaseValue::DateTime(s.clone()),
        }
    }

    /// The text that is bound for this value; `None` binds SQL NULL.
    pub open spec fn bound_text(&self) -> Option<Seq<char>> {
        match self {
            DatabaseValue::Null => None,
            DatabaseValue::Str(s) => Some(s@),
            DatabaseValue::String(s) => Some(s@),
            DatabaseValue::Int(s) => Some(s@),
            DatabaseValue::Int64(s) => Some(s@),
            DatabaseValue::Float(s) => Some(s@),
            DatabaseValue::Boolean(s) => Some(s@),
            DatabaseValue::DateTime(s) => Some(s@),
        }
    }

    /// A text value made of the pieces written one after another.
    pub fn from_pieces(pieces: &Vec<String>) -> (r: DatabaseValue)
        ensures
            r@ == (2nat, Some(concat_of(pieces@))),
    {
        let mut text = String::new();
        let mut i: usize = 0;
        while i < pieces.len()
            invariant
                i <= pieces@.len(),
                text@ == concat_of(pieces@.take(i as int)),
            decreases pieces@.len() - i,
        {
            text.append(pieces[i].as_str());
            assert(pieces@.take(i + 1).drop_last() =~= pieces@.take(i as int));
            i = i + 1;
        }
        assert(pieces@.take(i as int) =~= pieces@);
        DatabaseValue::String(text)
    }

    /// A boolean value: `true` or `false`.
    pub fn from_bool(b: bool) -> (r: DatabaseValue)
        ensures
            r@ == (6nat, Some(if b { "true"@ } else { "false"@ })),
    {
        DatabaseValue::Boolean(String::from_str(if b { "true" } else { "false" }))
    }

    /// A 64-bit integer value, in decimal.
    pub fn from_i64(n: i64) -> (r: DatabaseValue)
        ensures
            r@ == (4nat, Some(signed_decimal_of(n as int))),
    {
        let mut text = String::new();
        push_signed_decimal(&mut text, n);
        DatabaseValue::Int64(text)
    }

    /// The text bound for this value: `None` for SQL NULL, else the value's text.
    /// Every variant is bound as text, so one list of values can hold them all.
    pub fn bind_text(&self) -> (r: Option<String>)
        ensures
            opt_text(r) == self.bound_text(),
    {
        match self {
            DatabaseValue::Null => None,
            DatabaseValue::Str(s) => Some(String::from_str(s)),
            DatabaseValue::String(s) => Some(s.clone()),
            DatabaseValue::Int(s) => Some(s.clone()),
            DatabaseValue::Int64(s) => Some(s.clone()),
            DatabaseValue::Float(s) => Some(s.clone()),
            DatabaseValue::Boolean(s) => Some(s.clone()),
            DatabaseValue::DateTime(s) => Some(s.clone()),
        }
    }

    /// Appends the VALUES entry of this value at bind position `n` to `sql`.
    pub fn push_insert_slot(&self, sql: &mut String, n: usize)
        ensures
            final(sql)@ == old(sql)@ + insert_slot_of(self@, n as nat),
    {
        let cast: Option<&str> = match self {
            DatabaseValue::DateTime(_) => Some("TIMESTAMP"),
            DatabaseValue::Int(_) => Some("INTEGER"),
            DatabaseValue::Int64(_) => Some("BIGINT"),
            DatabaseValue::Float(_) => Some("FLOAT"),
            DatabaseValue::Boolean(_) => Some("BOOLEAN"),
            _ => None,
        };
        match self {
            DatabaseValue::Null => {
                sql.append("NULL");
            },
            _ => match cast {
                Some(t) => {
                    sql.append("CAST($");
                    push_decimal(sql, n as u64);
                    sql.append(" AS ");
                    sql.append(t);
                    sql.append(")");
                },
                None => {
                    sql.append("$");
                    push_decimal(sql, n as u64);
                },
            },
        }
        assert(final(sql)@ =~= old(sql)@ + insert_slot_of(self@, n as nat));
    }
}

} // verus!
