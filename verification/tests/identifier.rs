//! Identifier construction and the mapping to the resolver's query form.
use mol_cache::CacheError;
use mol_cache::doc::Atom;
use mol_cache::doc::valify_string;
use mol_cache::ident::CompoundQuery;
use mol_cache::ident::SerCompound;

#[test]
fn constructors_tag_namespaces() {
    assert_eq!(SerCompound::new(280).namespace, "cid");
    assert_eq!(SerCompound::new(280).identifier, "280");
    assert_eq!(SerCompound::new(0).identifier, "0");
    assert_eq!(SerCompound::new(u32::MAX).identifier, "4294967295");
    let n = SerCompound::with_name("Carbon Dioxide");
    assert_eq!(n.namespace, "name");
    assert_eq!(n.identifier, "Carbon Dioxide");
    assert_eq!(SerCompound::with_smiles("O=C=O").namespace, "smiles");
    assert_eq!(SerCompound::with_inchi("InChI=1S/CO2/c2-1-3").namespace, "inchi");
    assert_eq!(
        SerCompound::with_inchikey("CURLTUGMZLYLDI-UHFFFAOYSA-N").namespace,
        "inchikey"
    );
}

#[test]
fn identifier_equality_is_structural() {
    assert!(SerCompound::with_name("x") == SerCompound::with_name("x"));
    assert!(SerCompound::with_name("x") != SerCompound::with_name("y"));
    assert!(SerCompound::with_name("x") != SerCompound::with_smiles("x"));
}

#[test]
fn to_compound_maps_each_namespace() {
    assert_eq!(
        SerCompound::new(280).to_compound(),
        Ok(CompoundQuery::Cid(280))
    );
    assert_eq!(
        SerCompound::with_name("aspirin").to_compound(),
        Ok(CompoundQuery::Name("aspirin".to_string()))
    );
    assert_eq!(
        SerCompound::with_smiles("O").to_compound(),
        Ok(CompoundQuery::Smiles("O".to_string()))
    );
    assert_eq!(
        SerCompound::with_inchi("InChI=1S/H2O/h1H2").to_compound(),
        Ok(CompoundQuery::Inchi("InChI=1S/H2O/h1H2".to_string()))
    );
    assert_eq!(
        SerCompound::with_inchikey("XLYOFNOQVPJJNP-UHFFFAOYSA-N").to_compound(),
        Ok(CompoundQuery::InchiKey("XLYOFNOQVPJJNP-UHFFFAOYSA-N".to_string()))
    );
}

#[test]
fn to_compound_accepts_plus_and_leading_zeros() {
    let plus = SerCompound { namespace: "cid".to_string(), identifier: "+10".to_string() };
    assert_eq!(plus.to_compound(), Ok(CompoundQuery::Cid(10)));
    let zeros = SerCompound { namespace: "cid".to_string(), identifier: "007".to_string() };
    assert_eq!(zeros.to_compound(), Ok(CompoundQuery::Cid(7)));
}

#[test]
fn to_compound_rejects_unknown_namespace() {
    let bad = SerCompound { namespace: "casnumber".to_string(), identifier: "50-00-0".to_string() };
    assert_eq!(bad.to_compound(), Err(CacheError::InvalidIdentifier));
}

#[test]
fn to_compound_rejects_malformed_cid() {
    for v in ["", "12x", "-5", "4294967296", " 7", "+"] {
        let bad = SerCompound { namespace: "cid".to_string(), identifier: v.to_string() };
        assert_eq!(bad.to_compound(), Err(CacheError::MalformedValue), "value {v:?}");
    }
    let max = SerCompound { namespace: "cid".to_string(), identifier: "4294967295".to_string() };
    assert_eq!(max.to_compound(), Ok(CompoundQuery::Cid(u32::MAX)));
}

#[test]
fn valify_string_maps_presence_to_atom() {
    assert!(matches!(valify_string(&Some("x".to_string())), Atom::Text(s) if s == "x"));
    assert!(matches!(valify_string(&None), Atom::Null));
}
