use karpal::optics::iso::Iso;
use karpal::optics::lens::{Lens, SimpleLens};

#[derive(Debug, Clone, PartialEq)]
struct Person {
    name: String,
    age: u32,
}

fn person_name_lens() -> SimpleLens<
    Person,
    String,
    impl Fn(&Person) -> String + Copy,
    impl Fn(Person, String) -> Person + Copy,
> {
    Lens::new(|p: &Person| p.name.clone(), |p: Person, name: String| Person { name, ..p })
}

fn person_age_lens() -> SimpleLens<
    Person,
    u32,
    impl Fn(&Person) -> u32 + Copy,
    impl Fn(Person, u32) -> Person + Copy,
> {
    Lens::new(|p: &Person| p.age, |p: Person, age: u32| Person { age, ..p })
}

fn sample_person() -> Person {
    Person { name: "Alice".to_string(), age: 30 }
}

#[test]
fn lens_get() {
    let lens = person_name_lens();
    assert_eq!(lens.get(&sample_person()), "Alice");
}

#[test]
fn lens_set() {
    let lens = person_name_lens();
    let updated = lens.set(sample_person(), "Bob".to_string());
    assert_eq!(updated.name, "Bob");
    assert_eq!(updated.age, 30);
}

#[test]
fn lens_over() {
    let lens = person_age_lens();
    let updated = lens.over(sample_person(), |age| age + 1);
    assert_eq!(updated.age, 31);
    assert_eq!(updated.name, "Alice");
}

// GetPut: set(s, get(s)) == s
#[test]
fn law_get_put() {
    let lens = person_name_lens();
    let p = sample_person();
    let result = lens.set(p.clone(), lens.get(&p));
    assert_eq!(result, p);
}

// PutGet: get(set(s, b)) == b
#[test]
fn law_put_get() {
    let lens = person_name_lens();
    let result = lens.set(sample_person(), "Bob".to_string());
    assert_eq!(lens.get(&result), "Bob");
}

// PutPut: set(set(s, b1), b2) == set(s, b2)
#[test]
fn law_put_put() {
    let lens = person_name_lens();
    let p = sample_person();
    let left = lens.set(lens.set(p.clone(), "Bob".to_string()), "Charlie".to_string());
    let right = lens.set(p, "Charlie".to_string());
    assert_eq!(left, right);
}

#[test]
fn lens_transform_fnp() {
    let lens = person_age_lens();
    let transform_fn = lens.transform(|age: u32| age + 1);
    let result = transform_fn(sample_person());
    assert_eq!(result.age, 31);
    assert_eq!(result.name, "Alice");
}

#[test]
fn lens_transform_fnp_name() {
    let lens = person_name_lens();
    let transform_fn = lens.transform(|s: String| s.to_uppercase());
    let result = transform_fn(sample_person());
    assert_eq!(result.name, "ALICE");
    assert_eq!(result.age, 30);
}

#[derive(Debug, Clone, PartialEq)]
struct Address {
    street: String,
    city: String,
}

#[derive(Debug, Clone, PartialEq)]
struct Company {
    name: String,
    ceo: Person,
}

fn company_ceo_lens() -> SimpleLens<
    Company,
    Person,
    impl Fn(&Company) -> Person + Copy,
    impl Fn(Company, Person) -> Company + Copy,
> {
    Lens::new(|c: &Company| c.ceo.clone(), |c: Company, ceo: Person| Company { ceo, ..c })
}

fn address_city_lens() -> SimpleLens<
    Address,
    String,
    impl Fn(&Address) -> String + Copy,
    impl Fn(Address, String) -> Address + Copy,
> {
    Lens::new(|a: &Address| a.city.clone(), |a: Address, city: String| Address { city, ..a })
}

fn address_street_lens() -> SimpleLens<
    Address,
    String,
    impl Fn(&Address) -> String + Copy,
    impl Fn(Address, String) -> Address + Copy,
> {
    Lens::new(|a: &Address| a.street.clone(), |a: Address, street: String| Address { street, ..a })
}

fn sample_company() -> Company {
    Company { name: "Acme".to_string(), ceo: sample_person() }
}

#[test]
fn composed_get() {
    let lens = company_ceo_lens().and_then(person_name_lens());
    assert_eq!(lens.get(&sample_company()), "Alice");
}

#[test]
fn composed_set() {
    let lens = company_ceo_lens().and_then(person_name_lens());
    let updated = lens.set(sample_company(), "Bob".to_string());
    assert_eq!(updated.ceo.name, "Bob");
    assert_eq!(updated.ceo.age, 30);
    assert_eq!(updated.name, "Acme");
}

#[test]
fn composed_over() {
    let lens = company_ceo_lens().and_then(person_age_lens());
    let updated = lens.over(sample_company(), |age| age + 1);
    assert_eq!(updated.ceo.age, 31);
    assert_eq!(updated.ceo.name, "Alice");
}

#[derive(Debug, Clone, PartialEq)]
struct PersonWithAddr {
    name: String,
    addr: Address,
}

#[derive(Debug, Clone, PartialEq)]
struct Org {
    title: String,
    lead: PersonWithAddr,
}

fn org_lead_lens() -> SimpleLens<
    Org,
    PersonWithAddr,
    impl Fn(&Org) -> PersonWithAddr + Copy,
    impl Fn(Org, PersonWithAddr) -> Org + Copy,
> {
    Lens::new(|o: &Org| o.lead.clone(), |o: Org, lead: PersonWithAddr| Org { lead, ..o })
}

fn pwa_addr_lens() -> SimpleLens<
    PersonWithAddr,
    Address,
    impl Fn(&PersonWithAddr) -> Address + Copy,
    impl Fn(PersonWithAddr, Address) -> PersonWithAddr + Copy,
> {
    Lens::new(
        |p: &PersonWithAddr| p.addr.clone(),
        |p: PersonWithAddr, addr: Address| PersonWithAddr { addr, ..p },
    )
}

fn sample_org() -> Org {
    Org {
        title: "R&D".to_string(),
        lead: PersonWithAddr {
            name: "Alice".to_string(),
            addr: Address { street: "123 Main St".to_string(), city: "Springfield".to_string() },
        },
    }
}

#[test]
fn three_deep_get() {
    let lens = org_lead_lens().and_then(pwa_addr_lens()).and_then(address_city_lens());
    assert_eq!(lens.get(&sample_org()), "Springfield");
}

#[test]
fn three_deep_set() {
    let lens = org_lead_lens().and_then(pwa_addr_lens()).and_then(address_city_lens());
    let updated = lens.set(sample_org(), "Shelbyville".to_string());
    assert_eq!(updated.lead.addr.city, "Shelbyville");
    assert_eq!(updated.lead.addr.street, "123 Main St");
    assert_eq!(updated.lead.name, "Alice");
}

#[test]
fn three_deep_over() {
    let lens = org_lead_lens().and_then(pwa_addr_lens()).and_then(address_street_lens());
    let updated = lens.over(sample_org(), |s| s.to_uppercase());
    assert_eq!(updated.lead.addr.street, "123 MAIN ST");
}

#[test]
fn composed_law_get_put() {
    let lens = company_ceo_lens().and_then(person_name_lens());
    let c = sample_company();
    let result = lens.set(c.clone(), lens.get(&c));
    assert_eq!(result, c);
}

#[test]
fn composed_law_put_get() {
    let lens = company_ceo_lens().and_then(person_name_lens());
    let result = lens.set(sample_company(), "Bob".to_string());
    assert_eq!(lens.get(&result), "Bob");
}

#[test]
fn composed_law_put_put() {
    let lens = company_ceo_lens().and_then(person_name_lens());
    let c = sample_company();
    let left = lens.set(lens.set(c.clone(), "Bob".to_string()), "Charlie".to_string());
    let right = lens.set(c, "Charlie".to_string());
    assert_eq!(left, right);
}

// Profunctor equivalence: outer.transform(inner.transform(f)) matches composed.over
#[test]
fn profunctor_composition_equivalence() {
    let outer = company_ceo_lens();
    let inner = person_age_lens();
    let composed = company_ceo_lens().and_then(person_age_lens());

    let transform_fn = outer.transform(inner.transform(|age: u32| age + 1));

    let c = sample_company();
    let via_profunctor = transform_fn(c.clone());
    let via_composed = composed.over(c, |age| age + 1);
    assert_eq!(via_profunctor, via_composed);
}

#[test]
fn iso_to_lens_gets_and_sets() {
    let iso = Iso::new(|s: &String| s.clone().into_bytes(), |b: Vec<u8>| String::from_utf8(b).unwrap());
    let lens = iso.to_lens();
    assert_eq!(lens.get(&"hi".to_string()), vec![b'h', b'i']);
    assert_eq!(lens.set("x".to_string(), vec![b'a', b'b']), "ab");
}

#[test]
fn lens_to_getter_and_setter_agree_with_lens() {
    let lens = person_age_lens();
    let getter = lens.to_getter();
    let setter = lens.to_setter();
    assert_eq!(getter.get(&sample_person()), 30);
    assert_eq!(setter.over(sample_person(), |a| a * 2).age, 60);
    assert_eq!(setter.set(sample_person(), 7).age, 7);
}
