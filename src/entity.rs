//! The entity contract and the entities that follow it.
use vstd::prelude::*;

use crate::ident::{format_id, parse_id, text_of_uuid, uuid_of_text};
use crate::row::{get_int, get_text, int_at, row_view, text_at, Cell, CellView};

verus! {

/// What every persistable record offers: its table, its key, and the
/// encoding of itself as a row and back.
pub trait DatabaseObject: Sized + View {
    /// The record, if any, that a row of this type's table decodes to.
    spec fn decode(row: Seq<CellView>) -> Option<Self::V>;

    /// The row that stores a record: its identifier first, then its fields.
    spec fn encode(v: Self::V) -> Seq<CellView>;

    /// The identifier of a record.
    spec fn key(v: Self::V) -> u128;

    /// Name of the table that holds records of this type.
    spec fn table() -> Seq<char>;

    /// The read of one row by identifier, bound as `$1`.
    spec fn select_one() -> Seq<char>;

    /// The read of every row of the table.
    spec fn select_all() -> Seq<char>;

    /// The update of every non-identifier column, with the row of `to_row`
    /// bound in order as `$1, $2, ...`.
    spec fn update() -> Seq<char>;

    /// The insert of a whole row, bound as for the update.
    spec fn insert() -> Seq<char>;

    fn table_name() -> (r: &'static str)
        ensures
            r@ == Self::table(),
    ;

    fn select_one_statement() -> (r: &'static str)
        ensures
            r@ == Self::select_one(),
    ;

    fn select_all_statement() -> (r: &'static str)
        ensures
            r@ == Self::select_all(),
    ;

    fn update_statement() -> (r: &'static str)
        ensures
            r@ == Self::update(),
    ;

    fn insert_statement() -> (r: &'static str)
        ensures
            r@ == Self::insert(),
    ;

    /// Reads a record from a row; `None` when a column is missing or does not
    /// convert. Never a part of a record.
    fn from_row(row: &Vec<Cell>) -> (r: Option<Self>)
        ensures
            match r {
                Some(e) => Self::decode(row_view(row@)) == Some(e@),
                None => Self::decode(row_view(row@)) is None,
            },
    ;

    /// The record's identifier.
    fn id(&self) -> (r: u128)
        ensures
            r == Self::key(self@),
    ;

    /// The row that stores this record, in column order; it reads back as
    /// this record.
    fn to_row(&self) -> (r: Vec<Cell>)
        ensures
            row_view(r@) == Self::encode(self@),
            Self::decode(row_view(r@)) == Some(self@),
    ;
}

/// Another name under which a user is known.
pub struct UserAltName {
    id: u128,
    pub user: u128,
    pub nickname: String,
    pub added: i64,
}

/// A `UserAltName` as plain values.
pub struct AltNameView {
    pub id: u128,
    pub user: u128,
    pub nickname: Seq<char>,
    pub added: i64,
}

impl View for UserAltName {
    type V = AltNameView;

    closed spec fn view(&self) -> AltNameView {
        AltNameView { id: self.id, user: self.user, nickname: self.nickname@, added: self.added }
    }
}

/// The identifier written as text in column `i`, if it reads as one.
pub open spec fn id_at(row: Seq<CellView>, i: int) -> Option<u128> {
    match text_at(row, i) {
        Some(s) => uuid_of_text(s),
        None => None,
    }
}

/// The alternate name that a row `id, user, nickname, added` holds, if each
/// column converts.
pub open spec fn decode_alt_name(row: Seq<CellView>) -> Option<AltNameView> {
    if id_at(row, 0) is Some && id_at(row, 1) is Some && text_at(row, 2) is Some && int_at(
        row,
        3,
    ) is Some {
        Some(
            AltNameView {
                id: id_at(row, 0)->0,
                user: id_at(row, 1)->0,
                nickname: text_at(row, 2)->0,
                added: int_at(row, 3)->0,
            },
        )
    } else {
        None
    }
}

/// The row that stores an alternate name.
pub open spec fn encode_alt_name(v: AltNameView) -> Seq<CellView> {
    seq![
        CellView::Text(text_of_uuid(v.id)),
        CellView::Text(text_of_uuid(v.user)),
        CellView::Text(v.nickname),
        CellView::Int(v.added),
    ]
}

/// A row whose first column is not an identifier decodes to nothing; a row
/// whose four columns convert decodes to the record those columns hold, in
/// column order.
pub proof fn lemma_decode_by_columns(row: Seq<CellView>)
    ensures
        id_at(row, 0) is None ==> decode_alt_name(row) is None,
        id_at(row, 0) is Some && id_at(row, 1) is Some && text_at(row, 2) is Some && int_at(row, 3) is Some
            ==> decode_alt_name(row) == Some(
            AltNameView {
                id: id_at(row, 0)->0,
                user: id_at(row, 1)->0,
                nickname: text_at(row, 2)->0,
                added: int_at(row, 3)->0,
            },
        ),
{
}

impl UserAltName {
    pub fn new(id: u128, user: u128, nickname: String, added: i64) -> (r: Self)
        ensures
            r@ == (AltNameView { id, user, nickname: nickname@, added }),
    {
        UserAltName { id, user, nickname, added }
    }

    pub fn user(&self) -> (r: u128)
        ensures
            r == self@.user,
    {
        self.user
    }

    pub fn nickname(&self) -> (r: &String)
        ensures
            r@ == self@.nickname,
    {
        &self.nickname
    }

    pub fn added(&self) -> (r: i64)
        ensures
            r == self@.added,
    {
        self.added
    }

    pub fn set_user(&mut self, user: u128)
        ensures
            final(self)@ == (AltNameView { user, ..old(self)@ }),
    {
        self.user = user;
    }

    pub fn set_nickname(&mut self, nickname: String)
        ensures
            final(self)@ == (AltNameView { nickname: nickname@, ..old(self)@ }),
    {
        self.nickname = nickname;
    }

    pub fn set_added(&mut self, added: i64)
        ensures
            final(self)@ == (AltNameView { added, ..old(self)@ }),
    {
        self.added = added;
    }
}

impl DatabaseObject for UserAltName {
    open spec fn decode(row: Seq<CellView>) -> Option<AltNameView> {
        decode_alt_name(row)
    }

    open spec fn encode(v: AltNameView) -> Seq<CellView> {
        encode_alt_name(v)
    }

    open spec fn key(v: AltNameView) -> u128 {
        v.id
    }

    open spec fn table() -> Seq<char> {
        "user_alt_name"@
    }

    open spec fn select_one() -> Seq<char> {
        "SELECT * FROM user_alt_name WHERE id = $1"@
    }

    open spec fn select_all() -> Seq<char> {
        "SELECT * FROM user_alt_name"@
    }

    open spec fn update() -> Seq<char> {
        "UPDATE user_alt_name SET \"user\" = $2, nickname = $3, added = $4 WHERE id = $1"@
    }

    open spec fn insert() -> Seq<char> {
        "INSERT INTO user_alt_name (id, \"user\", nickname, added) VALUES ($1, $2, $3, $4)"@
    }

    fn table_name() -> (r: &'static str) {
        "user_alt_name"
    }

    fn select_one_statement() -> (r: &'static str) {
        "SELECT * FROM user_alt_name WHERE id = $1"
    }

    fn select_all_statement() -> (r: &'static str) {
        "SELECT * FROM user_alt_name"
    }

    fn update_statement() -> (r: &'static str) {
        "UPDATE user_alt_name SET \"user\" = $2, nickname = $3, added = $4 WHERE id = $1"
    }

    fn insert_statement() -> (r: &'static str) {
        "INSERT INTO user_alt_name (id, \"user\", nickname, added) VALUES ($1, $2, $3, $4)"
    }

    fn from_row(row: &Vec<Cell>) -> (r: Option<Self>) {
        let id = match get_text(row, 0) {
            Some(s) => parse_id(s.as_str()),
            None => None,
        };
        let user = match get_text(row, 1) {
            Some(s) => parse_id(s.as_str()),
            None => None,
        };
        let nickname = get_text(row, 2);
        let added = get_int(row, 3);
        match (id, user, nickname, added) {
            (Some(id), Some(user), Some(nickname), Some(added)) => Some(
                UserAltName { id, user, nickname: nickname.clone(), added },
            ),
            _ => None,
        }
    }

    fn id(&self) -> (r: u128) {
        self.id
    }

    fn to_row(&self) -> (r: Vec<Cell>) {
        let id = format_id(self.id);
        let user = format_id(self.user);
        let r = vec![Cell::Text(id), Cell::Text(user), Cell::Text(self.nickname.clone()), Cell::Int(self.added)];
        assert(row_view(r@) =~= encode_alt_name(self@));
        r
    }
}

/// An account.
pub struct User {
    id: u128,
    username: String,
    password: String,
}

impl View for User {
    /// Identifier, user name, password.
    type V = (u128, Seq<char>, Seq<char>);

    closed spec fn view(&self) -> Self::V {
        (self.id, self.username@, self.password@)
    }
}

impl User {
    pub fn new(id: u128, username: String, password: String) -> (r: Self)
        ensures
            r@ == (id, username@, password@),
    {
        User { id, username, password }
    }
}

/// A device that belongs to a user.
pub struct Device {
    id: u128,
    pub user: u128,
    pub name: String,
}

impl View for Device {
    /// Identifier, owning user, name.
    type V = (u128, u128, Seq<char>);

    closed spec fn view(&self) -> Self::V {
        (self.id, self.user, self.name@)
    }
}

impl Device {
    pub fn new(id: u128, user: u128, name: String) -> (r: Self)
        ensures
            r@ == (id, user, name@),
    {
        Device { id, user, name }
    }
}

/// A message that a user wrote; `date` counts microseconds since the Unix
/// epoch, in UTC.
pub struct Message {
    id: u128,
    pub user: u128,
    pub message: String,
    pub date: i64,
}

impl View for Message {
    /// Identifier, author, text, date.
    type V = (u128, u128, Seq<char>, i64);

    closed spec fn view(&self) -> Self::V {
        (self.id, self.user, self.message@, self.date)
    }
}

impl Message {
    pub fn new(id: u128, user: u128, message: String, date: i64) -> (r: Self)
        ensures
            r@ == (id, user, message@, date),
    {
        Message { id, user, message, date }
    }
}

} // verus!
