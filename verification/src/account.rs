//! Cloud accounts: when two of them are the same, and when a pairing made for
//! one has to give way to another.
use vstd::prelude::*;

use crate::text;

verus! {

broadcast use vstd::string::group_string_axioms;

/// The form in which accounts are compared: no white space around it, no case.
pub open spec fn key_of(account: Seq<char>) -> Seq<char> {
    text::lowercased(text::trimmed(account))
}

/// A pairing is replaced when there is one and an account is asked for that is
/// not the one it was made with. A pairing made with no account differs from
/// every account.
pub open spec fn rebind_due(
    paired: bool,
    stored: Option<Seq<char>>,
    requested: Option<Seq<char>>,
) -> bool {
    match requested {
        Some(account) => paired && (stored matches Some(old) ==> key_of(old) != key_of(account)),
        None => false,
    }
}

/// Case-insensitive key for comparing two accounts. It serves the comparison
/// alone: an account is stored and sent with its case preserved. A key is its
/// own key.
pub fn account_key(s: &str) -> (key: String)
    ensures
        key@ == key_of(s@),
        key_of(key@) == key@,
{
    proof {
        text::lemma_trimmed(s@);
    }
    s.trim().to_lowercase()
}

/// Whether a pairing is replaced, given the keys of the two accounts.
pub fn keys_call_for_rebind(
    paired: bool,
    stored_key: Option<&str>,
    requested_key: Option<&str>,
) -> (rebind: bool)
    ensures
        rebind == (paired && requested_key is Some && stored_key.deep_view()
            != requested_key.deep_view()),
{
    match (paired, requested_key) {
        (true, Some(requested)) => match stored_key {
            Some(stored) => *stored != *requested,
            None => true,
        },
        _ => false,
    }
}

/// Whether the agent drops its pairing and pairs again, given whether it is
/// paired, the account stored with the pairing, and the account it was asked to
/// use now. Only an explicit, different account does that; asking for none
/// leaves the pairing alone.
pub fn should_rebind(paired: bool, stored: Option<&str>, requested: Option<&str>) -> (rebind: bool)
    ensures
        rebind == rebind_due(paired, stored.deep_view(), requested.deep_view()),
{
    let stored_key = match stored {
        Some(account) => Some(account_key(account)),
        None => None,
    };
    let requested_key = match requested {
        Some(account) => Some(account_key(account)),
        None => None,
    };
    keys_call_for_rebind(paired, text::borrowed(&stored_key), text::borrowed(&requested_key))
}

/// Asking for no account never replaces a pairing, and neither does anything
/// that is asked of an agent that is not paired.
pub proof fn law_rebind_needs_pairing_and_request(
    paired: bool,
    stored: Option<Seq<char>>,
    requested: Option<Seq<char>>,
)
    requires
        !paired || requested is None,
    ensures
        !rebind_due(paired, stored, requested),
{
}

/// A pairing made with no account gives way to every account.
pub proof fn law_local_pairing_gives_way(requested: Seq<char>)
    ensures
        rebind_due(true, None, Some(requested)),
{
}

/// White space around an account does not make it another one, so asking for
/// the stored account with any of it keeps the pairing.
pub proof fn law_white_space_keeps_pairing(
    paired: bool,
    account: Seq<char>,
    left: Seq<char>,
    right: Seq<char>,
)
    requires
        text::is_blank(left),
        text::is_blank(right),
    ensures
        key_of(left + account + right) == key_of(account),
        !rebind_due(paired, Some(account), Some(left + account + right)),
{
    text::lemma_trimmed_padding(left, account, right);
}

/// Accounts that are the same but for the case of their ASCII letters have the
/// same key.
pub proof fn law_ascii_case_shares_key(left: Seq<char>, right: Seq<char>)
    requires
        text::ascii_lowercased(left) == text::ascii_lowercased(right),
    ensures
        key_of(left) == key_of(right),
{
    text::lemma_trimmed_ascii_lowercased(left);
    text::lemma_trimmed_ascii_lowercased(right);
    text::lemma_lowercased_ignores_ascii_case(text::trimmed(left), text::trimmed(right));
}

/// Writing either account with its ASCII letters in upper case and with white
/// space around it does not change whether a pairing is replaced.
pub proof fn law_padding_and_ascii_case_do_not_matter(
    paired: bool,
    stored: Option<Seq<char>>,
    requested: Option<Seq<char>>,
    account: Seq<char>,
    left: Seq<char>,
    right: Seq<char>,
)
    requires
        text::is_blank(left),
        text::is_blank(right),
    ensures
        rebind_due(paired, stored, Some(left + text::ascii_uppercased(account) + right))
            == rebind_due(paired, stored, Some(account)),
        rebind_due(paired, Some(left + text::ascii_uppercased(account) + right), requested)
            == rebind_due(paired, Some(account), requested),
{
    let upper = text::ascii_uppercased(account);
    text::lemma_trimmed_padding(left, upper, right);
    assert(text::ascii_lowercased(upper) =~= text::ascii_lowercased(account));
    law_ascii_case_shares_key(upper, account);
}

/// Two ASCII accounts that spell the same letters, in whatever case, are one
/// account, and two that do not are two: asking for the one while paired with
/// the other replaces the pairing exactly in the second case.
pub proof fn law_ascii_case_is_ignored(stored: Seq<char>, requested: Seq<char>)
    requires
        vstd::utf8::is_ascii_chars(stored),
        vstd::utf8::is_ascii_chars(requested),
    ensures
        rebind_due(true, Some(stored), Some(requested)) <==> !({
            let old = text::trimmed(stored);
            let new = text::trimmed(requested);
            &&& old.len() == new.len()
            &&& forall|i: int|
                0 <= i < old.len() ==> text::ascii_lower(old[i]) == text::ascii_lower(new[i])
        }),
{
    text::lemma_trimmed(stored);
    text::lemma_trimmed(requested);
    let old = text::trimmed(stored);
    let new = text::trimmed(requested);
    let lower = |c: char| text::ascii_lower(c);
    if old.map_values(lower) == new.map_values(lower) {
        assert(old.len() == old.map_values(lower).len());
        assert(new.len() == new.map_values(lower).len());
        assert forall|i: int| 0 <= i < old.len() implies text::ascii_lower(old[i])
            == text::ascii_lower(new[i]) by {
            assert(old.map_values(lower)[i] == new.map_values(lower)[i]);
        }
    } else if old.len() == new.len() && (forall|i: int|
        0 <= i < old.len() ==> text::ascii_lower(old[i]) == text::ascii_lower(new[i])) {
        assert(old.map_values(lower) =~= new.map_values(lower));
    }
}

/// While paired, the pairing is replaced exactly when the two accounts have
/// different lower cases once the white space around them is gone, whatever
/// characters they are made of.
pub proof fn law_rebind_compares_trimmed_lower_case(stored: Seq<char>, requested: Seq<char>)
    ensures
        rebind_due(true, Some(stored), Some(requested)) <==> text::lowercased(
            text::trimmed(stored),
        ) != text::lowercased(text::trimmed(requested)),
        key_of(stored) == text::lowercased(text::trimmed(stored)),
{
}

/// Which of two accounts is stored and which is asked for does not matter to
/// whether they differ, and no account differs from itself.
pub proof fn law_difference_is_symmetric(left: Seq<char>, right: Seq<char>)
    ensures
        rebind_due(true, Some(left), Some(right)) == rebind_due(true, Some(right), Some(left)),
        !rebind_due(true, Some(left), Some(left)),
{
}

} // verus!
