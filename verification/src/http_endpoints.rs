//! What the client exchanges with the site over HTTP: the forms that it
//! posts and the answers that it reads. The requests themselves are made
//! elsewhere.

use vstd::prelude::*;
use crate::data::{Character, CharacterId, FriendRelation};
use crate::util::StringBool;

verus! {

/// Where a ticket is asked for.
pub const API_TICKET_URL: &'static str = "https://www.f-list.net/json/getApiTicket.php";

/// Where the lists of friends and bookmarks are asked for.
pub const FRIEND_LIST_URL: &'static str = "https://www.f-list.net/json/api/friend-bookmark-lists.php";

/// A bookmark of the account.
#[derive(Clone, Copy, Debug, PartialEq, Eq)]
pub struct Bookmark {
    pub name: Character,
}

/// A friendship: `dest` is a character of the account, `source` its friend.
#[derive(Clone, Copy, Debug, PartialEq, Eq)]
pub struct Friend {
    pub dest: Character,
    /// The seconds since the friend was last online.
    pub last_online: u64,
    pub source: Character,
}

/// A request for friendship that is not answered yet.
#[derive(Clone, Copy, Debug, PartialEq, Eq)]
pub struct FriendRequest {
    pub dest: Character,
    pub id: u64,
    pub source: Character,
}

/// The answer to a request for a ticket.
#[derive(Clone, Debug, PartialEq, Eq)]
pub struct ApiTicketResponse {
    pub bookmarks: Vec<Bookmark>,
    /// The characters of the account, each with its number.
    pub characters: Vec<(Character, CharacterId)>,
    /// The number of the character that the account uses by default.
    pub default_character: CharacterId,
    pub friends: Vec<Friend>,
    pub ticket: String,
}

/// The answer to a request for the lists of friends and bookmarks.
#[derive(Clone, Debug, PartialEq, Eq)]
pub struct FriendListResponse {
    pub bookmarks: Vec<Character>,
    pub friends: Vec<Friend>,
    pub pending_incoming: Vec<FriendRequest>,
    pub pending_outgoing: Vec<FriendRequest>,
}

/// The text of a truth value in a form.
pub open spec fn truth_text(value: bool) -> Seq<char> {
    if value {
        "true"@
    } else {
        "false"@
    }
}

/// The text of a truth value in a form.
pub fn truth_string(value: StringBool) -> (text: String)
    ensures
        text@ == truth_text(value.0),
{
    if value.0 {
        "true".to_owned()
    } else {
        "false".to_owned()
    }
}

/// The fields of the form that asks for a ticket, by name and value, as
/// views. With `extra` the answer holds characters, friends and bookmarks;
/// without, the ticket alone.
pub open spec fn ticket_form(account: Seq<char>, password: Seq<char>, extra: bool) -> Seq<
    (Seq<char>, Seq<char>),
> {
    seq![
        ("account"@, account),
        ("password"@, password),
        ("no_characters"@, truth_text(!extra)),
        ("no_friends"@, truth_text(!extra)),
        ("no_bookmarks"@, truth_text(!extra)),
        ("new_character_list"@, truth_text(extra)),
    ]
}

/// The fields of the form that asks for the lists of friends and bookmarks.
pub open spec fn friend_list_form(account: Seq<char>, ticket: Seq<char>) -> Seq<
    (Seq<char>, Seq<char>),
> {
    seq![
        ("account"@, account),
        ("ticket"@, ticket),
        ("bookmarklist"@, truth_text(true)),
        ("friendlist"@, truth_text(true)),
        ("requestlist"@, truth_text(true)),
        ("requestpending"@, truth_text(true)),
    ]
}

/// The views of the fields of a form.
pub open spec fn form_view(fields: Seq<(String, String)>) -> Seq<(Seq<char>, Seq<char>)> {
    fields.map_values(|field: (String, String)| (field.0@, field.1@))
}

/// The form that asks for a ticket.
pub fn get_api_ticket(username: &str, password: &str, extra: bool) -> (form: Vec<(String, String)>)
    ensures
        form_view(form@) == ticket_form(username@, password@, extra),
{
    let form = vec![
        ("account".to_owned(), username.to_owned()),
        ("password".to_owned(), password.to_owned()),
        ("no_characters".to_owned(), truth_string(StringBool(!extra))),
        ("no_friends".to_owned(), truth_string(StringBool(!extra))),
        ("no_bookmarks".to_owned(), truth_string(StringBool(!extra))),
        ("new_character_list".to_owned(), truth_string(StringBool(extra))),
    ];
    assert(form_view(form@) =~= ticket_form(username@, password@, extra));
    form
}

/// The form that asks for the lists of friends and bookmarks.
pub fn get_friends_list(ticket: &str, account: &str) -> (form: Vec<(String, String)>)
    ensures
        form_view(form@) == friend_list_form(account@, ticket@),
{
    let form = vec![
        ("account".to_owned(), account.to_owned()),
        ("ticket".to_owned(), ticket.to_owned()),
        ("bookmarklist".to_owned(), truth_string(StringBool(true))),
        ("friendlist".to_owned(), truth_string(StringBool(true))),
        ("requestlist".to_owned(), truth_string(StringBool(true))),
        ("requestpending".to_owned(), truth_string(StringBool(true))),
    ];
    assert(form_view(form@) =~= friend_list_form(account@, ticket@));
    form
}

/// The friendships as the cache keeps them: the character of the account
/// is the own character, the friend the other.
pub open spec fn relations_of(friends: Seq<Friend>) -> Seq<FriendRelation> {
    friends.map_values(
        |friend: Friend|
            FriendRelation { own_character: friend.dest, other_character: friend.source },
    )
}

/// The characters that a list of bookmarks names.
pub open spec fn bookmarks_of(bookmarks: Seq<Bookmark>) -> Seq<Character> {
    bookmarks.map_values(|bookmark: Bookmark| bookmark.name)
}

/// The friendships as the cache keeps them.
pub fn relations(friends: &Vec<Friend>) -> (r: Vec<FriendRelation>)
    ensures
        r@ == relations_of(friends@),
{
    let mut out: Vec<FriendRelation> = Vec::new();
    let mut i: usize = 0;
    while i < friends.len()
        invariant
            i <= friends@.len(),
            out@ == relations_of(friends@.subrange(0, i as int)),
        decreases friends@.len() - i,
    {
        out.push(
            FriendRelation { own_character: friends[i].dest, other_character: friends[i].source },
        );
        assert(friends@.subrange(0, i + 1) =~= friends@.subrange(0, i as int).push(
            friends@[i as int],
        ));
        assert(out@ =~= relations_of(friends@.subrange(0, i + 1)));
        i += 1;
    }
    assert(friends@.subrange(0, i as int) =~= friends@);
    out
}

/// The characters that a list of bookmarks names.
pub fn bookmark_names(bookmarks: &Vec<Bookmark>) -> (r: Vec<Character>)
    ensures
        r@ == bookmarks_of(bookmarks@),
{
    let mut out: Vec<Character> = Vec::new();
    let mut i: usize = 0;
    while i < bookmarks.len()
        invariant
            i <= bookmarks@.len(),
            out@ == bookmarks_of(bookmarks@.subrange(0, i as int)),
        decreases bookmarks@.len() - i,
    {
        out.push(bookmarks[i].name);
        assert(bookmarks@.subrange(0, i + 1) =~= bookmarks@.subrange(0, i as int).push(
            bookmarks@[i as int],
        ));
        assert(out@ =~= bookmarks_of(bookmarks@.subrange(0, i + 1)));
        i += 1;
    }
    assert(bookmarks@.subrange(0, i as int) =~= bookmarks@);
    out
}

} // verus!
