//! The decisions of setting up SSH credentials: which existing keys are
//! offered, how a key's owner is shown, which email is accepted, and how a
//! new key is generated.
use vstd::prelude::*;
use vstd::string::*;

use crate::text::{contains_seq, join, join_exec, split_whitespace_exec, str_contains, trim, trim_exec, views, words};

verus! {

/// The key files offered when they exist, with how their type is named.
pub open spec fn key_types() -> Seq<(Seq<char>, Seq<char>)> {
    seq![("id_ed25519"@, "Ed25519 (recommended)"@), ("id_rsa"@, "RSA"@), ("id_ecdsa"@, "ECDSA"@)]
}

/// The key files offered when they exist, with how their type is named.
pub fn existing_key_types() -> (r: Vec<(&'static str, &'static str)>)
    ensures
        r@.map_values(|p: (&str, &str)| (p.0@, p.1@)) == key_types(),
{
    let r: Vec<(&'static str, &'static str)> = vec![("id_ed25519", "Ed25519 (recommended)"), ("id_rsa", "RSA"), ("id_ecdsa", "ECDSA")];
    assert(r@.map_values(|p: (&str, &str)| (p.0@, p.1@)) =~= key_types());
    r
}

/// Who a public key belongs to, from the text of its file (none when it
/// could not be read): its words from the third on, joined by spaces.
pub open spec fn key_identity_spec(content: Option<Seq<char>>) -> Seq<char> {
    match content {
        None => "Could not read key"@,
        Some(c) => if words(c).len() >= 3 {
            join(words(c).subrange(2, words(c).len() as int), " "@)
        } else {
            "No identity found"@
        },
    }
}

/// Who a public key belongs to.
pub fn key_identity(content: Option<&str>) -> (r: String)
    ensures
        r@ == key_identity_spec(match content {
            Some(c) => Some(c@),
            None => None,
        }),
{
    match content {
        None => String::from_str("Could not read key"),
        Some(c) => {
            let parts = split_whitespace_exec(c);
            if parts.len() >= 3 {
                let mut rest: Vec<String> = Vec::new();
                let mut i: usize = 2;
                while i < parts.len()
                    invariant
                        2 <= i <= parts@.len(),
                        views(rest@) == views(parts@).subrange(2, i as int),
                    decreases parts.len() - i,
                {
                    let ghost prev = views(rest@);
                    let item = parts[i].clone();
                    assert(item@ == views(parts@)[i as int]);
                    rest.push(item);
                    assert(views(rest@) =~= prev.push(views(parts@)[i as int]));
                    assert(views(rest@) =~= views(parts@).subrange(2, i + 1));
                    i = i + 1;
                }
                join_exec(&rest, " ")
            } else {
                String::from_str("No identity found")
            }
        },
    }
}

/// An email typed for a new key: refused when blank or without `@`.
pub fn validate_email(input: &str) -> (r: Result<(), &'static str>)
    ensures
        trim(input@).len() == 0 ==> (r matches Err(m) && m@ == "Email cannot be empty"@),
        trim(input@).len() > 0 && !contains_seq(input@, "@"@) ==> (r matches Err(m) && m@ == "Please enter a valid email address"@),
        trim(input@).len() > 0 && contains_seq(input@, "@"@) ==> r is Ok,
{
    let t = trim_exec(input);
    if t.as_str().unicode_len() == 0 {
        Err("Email cannot be empty")
    } else if !str_contains(input, "@") {
        Err("Please enter a valid email address")
    } else {
        Ok(())
    }
}

/// A new key to generate: its type's name, its file name and the options
/// of `ssh-keygen` that choose it.
pub struct KeygenPlan {
    pub key_type: &'static str,
    pub key_name: &'static str,
    pub args: Vec<&'static str>,
}

/// The key generated for the menu choice: RSA 4096 for the second entry,
/// Ed25519 otherwise.
pub fn keygen_plan(choice: usize) -> (r: KeygenPlan)
    ensures
        choice == 1 ==> r.key_type@ == "RSA"@ && r.key_name@ == "id_rsa"@
            && r.args@.map_values(|a: &str| a@) == seq!["-t"@, "rsa"@, "-b"@, "4096"@],
        choice != 1 ==> r.key_type@ == "Ed25519"@ && r.key_name@ == "id_ed25519"@
            && r.args@.map_values(|a: &str| a@) == seq!["-t"@, "ed25519"@],
{
    if choice == 1 {
        let args: Vec<&'static str> = vec!["-t", "rsa", "-b", "4096"];
        assert(args@.map_values(|a: &str| a@) =~= seq!["-t"@, "rsa"@, "-b"@, "4096"@]);
        KeygenPlan { key_type: "RSA", key_name: "id_rsa", args }
    } else {
        let args: Vec<&'static str> = vec!["-t", "ed25519"];
        assert(args@.map_values(|a: &str| a@) =~= seq!["-t"@, "ed25519"@]);
        KeygenPlan { key_type: "Ed25519", key_name: "id_ed25519", args }
    }
}

/// The arguments of `ssh-keygen` for the plan: its options, then the email
/// as comment, the key path, and an empty passphrase.
pub fn keygen_args(plan: &KeygenPlan, email: &str, key_path: &str) -> (r: Vec<String>)
    ensures
        views(r@) == plan.args@.map_values(|a: &str| a@) + seq!["-C"@, email@, "-f"@, key_path@, "-N"@, ""@],
{
    let mut r: Vec<String> = Vec::new();
    let mut i: usize = 0;
    while i < plan.args.len()
        invariant
            i <= plan.args@.len(),
            views(r@) == plan.args@.subrange(0, i as int).map_values(|a: &str| a@),
        decreases plan.args.len() - i,
    {
        let ghost prev = views(r@);
        let item = String::from_str(plan.args[i]);
        r.push(item);
        assert(views(r@) =~= prev.push(plan.args@[i as int]@));
        assert(plan.args@.subrange(0, i + 1).map_values(|a: &str| a@) =~= plan.args@.subrange(0, i as int).map_values(|a: &str| a@).push(plan.args@[i as int]@));
        i = i + 1;
    }
    assert(plan.args@.subrange(0, plan.args@.len() as int) =~= plan.args@);
    let ghost base = views(r@);
    r.push(String::from_str("-C"));
    r.push(String::from_str(email));
    r.push(String::from_str("-f"));
    r.push(String::from_str(key_path));
    r.push(String::from_str("-N"));
    r.push(String::from_str(""));
    assert(views(r@) =~= base + seq!["-C"@, email@, "-f"@, key_path@, "-N"@, ""@]);
    r
}

/// What the setup menu's answer asks for.
#[derive(Debug, Clone, Copy, PartialEq, Eq, Structural)]
pub enum SetupChoice {
    UseExisting,
    Generate,
    Cancel,
}

/// The setup menu's answer (none when the prompt failed): use a key,
/// generate one, or stop.
pub fn setup_choice(selection: Option<usize>) -> (r: SetupChoice)
    requires
        selection matches Some(s) ==> s < 3,
    ensures
        selection == Some(0usize) ==> r == SetupChoice::UseExisting,
        selection == Some(1usize) ==> r == SetupChoice::Generate,
        (selection == Some(2usize) || selection is None) ==> r == SetupChoice::Cancel,
{
    match selection {
        Some(0) => SetupChoice::UseExisting,
        Some(1) => SetupChoice::Generate,
        _ => SetupChoice::Cancel,
    }
}

/// How an existing key is listed: its file, its type and its owner.
pub fn key_option_label(key_name: &str, key_type: &str, identity: &str) -> (r: String)
    ensures
        r@ == key_name@ + " ("@ + key_type@ + ") - "@ + identity@,
{
    let mut r = String::from_str(key_name);
    r.append(" (");
    r.append(key_type);
    r.append(") - ");
    r.append(identity);
    r
}

} // verus!
