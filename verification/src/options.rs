use vstd::prelude::*;

use crate::errors::SearchError;

verus! {

/// The capability set of a text field, combined by set union from the
/// caller-supplied option tokens: `TEXT` (tokenized and searchable),
/// `STORED` (the original value is retrievable), `STRING` (indexed as one
/// untokenized token, for exact matching).
#[derive(Clone, Copy, Debug, PartialEq, Eq, Structural)]
pub struct FieldCapabilities {
    pub text: bool,
    pub stored: bool,
    pub string: bool,
}

/// Whether `t` is one of the three recognized option tokens.
pub open spec fn known_token(t: Seq<char>) -> bool {
    t == "TEXT"@ || t == "STORED"@ || t == "STRING"@
}

/// Whether every token of the sequence is recognized.
pub open spec fn all_tokens_known(tokens: Seq<Seq<char>>) -> bool {
    forall|i: int| 0 <= i < tokens.len() ==> known_token(#[trigger] tokens[i])
}

/// The union of the capabilities named by a token sequence.  Only membership
/// matters, so neither the order of the tokens nor their repetition can
/// change the result.
pub open spec fn capabilities_of(tokens: Seq<Seq<char>>) -> FieldCapabilities {
    FieldCapabilities {
        text: tokens.contains("TEXT"@),
        stored: tokens.contains("STORED"@),
        string: tokens.contains("STRING"@),
    }
}

/// Parses caller-supplied option tokens into a capability set.  An unknown
/// token is a configuration error, and the call succeeds exactly when every
/// token is recognized.
pub fn parse_capabilities(tokens: &Vec<String>) -> (r: Result<FieldCapabilities, SearchError>)
    ensures
        r is Ok <==> all_tokens_known(tokens.deep_view()),
        r matches Ok(c) ==> c == capabilities_of(tokens.deep_view()),
        r matches Err(e) ==> e is Configuration,
{
    proof {
        reveal_strlit("TEXT");
        reveal_strlit("STORED");
        reveal_strlit("STRING");
    }
    let text_token: String = "TEXT".to_owned();
    let stored_token: String = "STORED".to_owned();
    let string_token: String = "STRING".to_owned();
    let mut caps = FieldCapabilities { text: false, stored: false, string: false };
    let mut i: usize = 0;
    while i < tokens.len()
        invariant
            0 <= i <= tokens@.len(),
            text_token@ == "TEXT"@,
            stored_token@ == "STORED"@,
            string_token@ == "STRING"@,
            forall|j: int| 0 <= j < i ==> known_token(#[trigger] tokens.deep_view()[j]),
            caps.text <==> exists|j: int|
                0 <= j < i && #[trigger] tokens.deep_view()[j] == "TEXT"@,
            caps.stored <==> exists|j: int|
                0 <= j < i && #[trigger] tokens.deep_view()[j] == "STORED"@,
            caps.string <==> exists|j: int|
                0 <= j < i && #[trigger] tokens.deep_view()[j] == "STRING"@,
        decreases tokens@.len() - i,
    {
        proof {
            reveal_strlit("TEXT");
            reveal_strlit("STORED");
            reveal_strlit("STRING");
        }
        let tok = &tokens[i];
        assert(tokens.deep_view()[i as int] == tok@);
        if *tok == text_token {
            assert(tokens.deep_view()[i as int] == "TEXT"@);
            caps.text = true;
        } else if *tok == stored_token {
            assert(tokens.deep_view()[i as int] == "STORED"@);
            assert("STORED"@ != "STRING"@) by {
                assert("STORED"@[2] == 'O' && "STRING"@[2] == 'R');
            }
            caps.stored = true;
        } else if *tok == string_token {
            assert(tokens.deep_view()[i as int] == "STRING"@);
            caps.string = true;
        } else {
            assert(!known_token(tokens.deep_view()[i as int]));
            return Err(SearchError::Configuration("unknown field option token".to_owned()));
        }
        i = i + 1;
    }
    assert(capabilities_of(tokens.deep_view()) == caps);
    Ok(caps)
}

/// Order and repetition of option tokens cannot change what they parse to:
/// two token sequences with the same members are both accepted or both
/// rejected, and parse to the same capability set.
pub proof fn lemma_capabilities_token_order_irrelevant(a: Seq<Seq<char>>, b: Seq<Seq<char>>)
    requires
        a.to_multiset() == b.to_multiset(),
    ensures
        capabilities_of(a) == capabilities_of(b),
        all_tokens_known(a) == all_tokens_known(b),
{
    broadcast use vstd::seq_lib::group_to_multiset_ensures;

    assert forall|t: Seq<char>| a.contains(t) == b.contains(t) by {
        assert(a.contains(t) <==> a.to_multiset().count(t) > 0);
        assert(b.contains(t) <==> b.to_multiset().count(t) > 0);
    }
    assert(capabilities_of(a) == capabilities_of(b));
    if all_tokens_known(a) {
        assert forall|i: int| 0 <= i < b.len() implies known_token(#[trigger] b[i]) by {
            assert(b.contains(b[i]));
            let j = choose|j: int| 0 <= j < a.len() && a[j] == b[i];
            assert(known_token(a[j]));
        }
    }
    if all_tokens_known(b) {
        assert forall|i: int| 0 <= i < a.len() implies known_token(#[trigger] a[i]) by {
            assert(a.contains(a[i]));
            let j = choose|j: int| 0 <= j < b.len() && b[j] == a[i];
            assert(known_token(b[j]));
        }
    }
}

} // verus!
