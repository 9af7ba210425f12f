//! The list of people that the desktop front end shows, and its sign-in.

use vstd::prelude::*;
use vstd::string::*;

verus! {

/// The address that may sign in.
pub const ADMIN_EMAIL: &'static str = "admin@test.com";

/// The password that goes with it.
pub const ADMIN_PASSWORD: &'static str = "password";

/// One person of the list.
#[derive(Debug, PartialEq, Eq)]
pub struct Person {
    pub id: u64,
    pub name: String,
    pub image_url: String,
}

/// The view of a [`Person`].
pub struct PersonView {
    pub id: u64,
    pub name: Seq<char>,
    pub image_url: Seq<char>,
}

impl View for Person {
    type V = PersonView;

    open spec fn view(&self) -> PersonView {
        PersonView { id: self.id, name: self.name@, image_url: self.image_url@ }
    }
}

impl Clone for Person {
    fn clone(&self) -> (copy: Self)
        ensures
            copy@ == self@,
    {
        Person { id: self.id, name: self.name.clone(), image_url: self.image_url.clone() }
    }
}

/// The views of a list of people.
pub open spec fn people_view(people: Seq<Person>) -> Seq<PersonView> {
    Seq::new(people.len(), |i: int| people[i]@)
}

/// The largest id in a list, 0 for the empty list.
pub open spec fn largest_id(people: Seq<PersonView>) -> nat
    decreases people.len(),
{
    if people.len() == 0 {
        0
    } else {
        let before = largest_id(people.drop_last());
        if people.last().id > before {
            people.last().id as nat
        } else {
            before
        }
    }
}

/// The greeting for `name`.
pub fn greet(name: &str) -> (greeting: String)
    ensures
        greeting@ == "Hello, "@ + name@ + "! You've been greeted from Rust!"@,
{
    let mut greeting = "Hello, ".to_owned();
    greeting.append(name);
    greeting.append("! You've been greeted from Rust!");
    greeting
}

/// Signs in: the one known address with its password is let in, everything
/// else is turned away.
pub fn login(email: &str, password: &str) -> (answer: Result<String, String>)
    ensures
        match answer {
            Ok(text) => email@ == ADMIN_EMAIL@ && password@ == ADMIN_PASSWORD@ && text@
                == "Login successful!"@,
            Err(text) => !(email@ == ADMIN_EMAIL@ && password@ == ADMIN_PASSWORD@) && text@
                == "Invalid email or password."@,
        },
{
    if email.to_owned() == ADMIN_EMAIL.to_owned() && password.to_owned()
        == ADMIN_PASSWORD.to_owned() {
        Ok("Login successful!".to_owned())
    } else {
        Err("Invalid email or password.".to_owned())
    }
}

/// The list that the front end starts with.
pub fn initial_people() -> (people: Vec<Person>)
    ensures
        people_view(people@) == seq![
            PersonView {
                id: 1,
                name: "John Doe"@,
                image_url: "https://via.placeholder.com/150"@,
            },
            PersonView {
                id: 2,
                name: "Jane Smith"@,
                image_url: "https://via.placeholder.com/150"@,
            },
        ],
{
    let mut people: Vec<Person> = Vec::new();
    people.push(
        Person {
            id: 1,
            name: "John Doe".to_owned(),
            image_url: "https://via.placeholder.com/150".to_owned(),
        },
    );
    people.push(
        Person {
            id: 2,
            name: "Jane Smith".to_owned(),
            image_url: "https://via.placeholder.com/150".to_owned(),
        },
    );
    assert(people_view(people@) =~= seq![people@[0]@, people@[1]@]);
    people
}

/// A copy of the list.
pub fn get_people(people: &Vec<Person>) -> (listed: Result<Vec<Person>, String>)
    ensures
        listed matches Ok(copy) && people_view(copy@) == people_view(people@),
{
    let mut copy: Vec<Person> = Vec::new();
    let mut i: usize = 0;
    while i < people.len()
        invariant
            i <= people.len(),
            copy@.len() == i,
            forall|j: int| 0 <= j < i ==> (#[trigger] copy@[j])@ == people@[j]@,
        decreases people.len() - i,
    {
        copy.push(people[i].clone());
        i += 1;
    }
    assert(people_view(copy@) =~= people_view(people@));
    Ok(copy)
}

/// The largest id in the list, 0 for the empty list.
pub fn max_id(people: &Vec<Person>) -> (largest: u64)
    ensures
        largest == largest_id(people_view(people@)),
{
    let mut largest: u64 = 0;
    let mut i: usize = 0;
    assert(people_view(people@).take(0) =~= Seq::empty());
    while i < people.len()
        invariant
            i <= people.len(),
            largest == largest_id(people_view(people@).take(i as int)),
        decreases people.len() - i,
    {
        proof {
            let next = people_view(people@).take(i + 1);
            assert(next.drop_last() =~= people_view(people@).take(i as int));
            assert(next.last() == people@[i as int]@);
        }
        if people[i].id > largest {
            largest = people[i].id;
        }
        i += 1;
    }
    assert(people_view(people@).take(people.len() as int) =~= people_view(people@));
    largest
}

/// Adds a person under the id that follows the largest id of the list, and
/// returns a copy of the list as it then is.
pub fn add_person(people: &mut Vec<Person>, name: String, image_url: String) -> (listed: Result<
    Vec<Person>,
    String,
>)
    requires
        largest_id(people_view(old(people)@)) < u64::MAX,
    ensures
        people_view(final(people)@) == people_view(old(people)@).push(
            PersonView {
                id: (largest_id(people_view(old(people)@)) + 1) as u64,
                name: name@,
                image_url: image_url@,
            },
        ),
        listed matches Ok(copy) && people_view(copy@) == people_view(final(people)@),
{
    let new_id = max_id(people) + 1;
    let ghost before = people_view(people@);
    let ghost added = PersonView { id: new_id, name: name@, image_url: image_url@ };
    people.push(Person { id: new_id, name, image_url });
    assert(people_view(people@) =~= before.push(added));
    get_people(people)
}

/// Takes every person with the id `id` off the list, and returns a copy of
/// the list as it then is.
pub fn delete_person(people: &mut Vec<Person>, id: u64) -> (listed: Result<Vec<Person>, String>)
    ensures
        people_view(final(people)@) == people_view(old(people)@).filter(
            |p: PersonView| p.id != id,
        ),
        listed matches Ok(copy) && people_view(copy@) == people_view(final(people)@),
{
    let ghost keep = |p: PersonView| p.id != id;
    let ghost before = people_view(people@);
    let mut kept: Vec<Person> = Vec::new();
    let mut i: usize = 0;
    proof {
        reveal(Seq::filter);
        assert(before.take(0) =~= Seq::empty());
    }
    while i < people.len()
        invariant
            i <= people.len(),
            before == people_view(people@),
            keep == |p: PersonView| p.id != id,
            people_view(kept@) == before.take(i as int).filter(keep),
        decreases people.len() - i,
    {
        let ghost so_far = people_view(kept@);
        proof {
            reveal(Seq::filter);
            let next = before.take(i + 1);
            assert(next.drop_last() =~= before.take(i as int));
            assert(next.last() == people@[i as int]@);
        }
        if people[i].id != id {
            kept.push(people[i].clone());
            assert(people_view(kept@) =~= so_far.push(people@[i as int]@));
        }
        i += 1;
    }
    assert(before.take(people.len() as int) =~= before);
    *people = kept;
    get_people(people)
}

} // verus!
