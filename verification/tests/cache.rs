//! Cache semantics and the persisted-document round trip.
use mol_cache::CacheError;
use mol_cache::ident::SerCompound;
use mol_cache::props::PropertySet;
use mol_cache::store::CompoundCache;
use mol_cache::store::FetchOutcome;

fn sample_props(cid: i64, formula: &str, weight: &str, iupac: Option<&str>) -> PropertySet {
    PropertySet {
        atom_stereo_count: 2,
        bond_stereo_count: 2,
        canonical_smiles: "v-canonical-smiles".to_string(),
        charge: 2,
        cid,
        complexity: 2,
        conformer_count_3d: 2,
        conformer_model_rmsd_3d: "1.5".to_string(),
        covalent_unit_count: 2,
        defined_atom_stereo_count: 2,
        defined_bond_stereo_count: 2,
        effective_rotor_count_3d: "1.5".to_string(),
        exact_mass: "v-exact-mass".to_string(),
        feature_acceptor_count_3d: 2,
        feature_anion_count_3d: 2,
        feature_cation_count_3d: 2,
        feature_count_3d: 2,
        feature_donor_count_3d: 2,
        feature_hydrophobe_count_3d: 2,
        feature_ring_count_3d: 2,
        fingerprint_2d: "v-fingerprint-2d".to_string(),
        hbond_acceptor_count: 2,
        hbond_donor_count: 2,
        heavy_atom_count: 2,
        inchi: "v-inchi".to_string(),
        inchi_key: "v-inchi-key".to_string(),
        isomeric_smiles: "v-isomeric-smiles".to_string(),
        isotope_atom_count: 2,
        iupac_name: iupac.map(|s| s.to_string()),
        molecular_formula: formula.to_string(),
        molecular_weight: weight.to_string(),
        monoisotopic_mass: "v-monoisotopic-mass".to_string(),
        rotatable_bond_count: 2,
        title: "v-title".to_string(),
        tpsa: "1.5".to_string(),
        undefined_atom_stereo_count: 2,
        undefined_bond_stereo_count: 2,
        volume_3d: "1.5".to_string(),
        x_steric_quadrupole_3d: "1.5".to_string(),
        xlogp: "1.5".to_string(),
        y_steric_quadrupole_3d: "1.5".to_string(),
        z_steric_quadrupole_3d: "1.5".to_string(),
    }
}
#[test]
fn store_keeps_first_fetch() {
    let mut c = CompoundCache::new();
    let id = SerCompound::with_name("Carbon Dioxide");
    let p1 = sample_props(280, "CO2", "44.01", None);
    let p2 = sample_props(281, "CO", "28.01", None);
    assert!(c.store(id.clone(), FetchOutcome::Fetched(p1.clone())).is_ok());
    assert!(c.store(id.clone(), FetchOutcome::Fetched(p2)).is_ok());
    assert_eq!(c.get_noreq(id), Some(p1));
}

#[test]
fn overwrite_takes_second_fetch() {
    let mut c = CompoundCache::new();
    let id = SerCompound::with_name("Carbon Dioxide");
    let p1 = sample_props(280, "CO2", "44.01", None);
    let p2 = sample_props(281, "CO", "28.01", None);
    assert!(c.overwrite(id.clone(), FetchOutcome::Fetched(p1)).is_ok());
    assert!(c.overwrite(id.clone(), FetchOutcome::Fetched(p2.clone())).is_ok());
    assert_eq!(c.get_noreq(id), Some(p2));
}

#[test]
fn get_reports_miss_then_hit() {
    let mut c = CompoundCache::new();
    let id = SerCompound::with_smiles("O=C=O");
    let p1 = sample_props(280, "CO2", "44.01", None);
    let p2 = sample_props(999, "XX", "9.99", None);
    let (hit1, got1) = c.get(id.clone(), FetchOutcome::Fetched(p1.clone())).unwrap();
    assert!(!hit1);
    assert_eq!(got1, p1);
    // on a hit the cached record is returned, not the fresh fetch
    let (hit2, got2) = c.get(id, FetchOutcome::Fetched(p2)).unwrap();
    assert!(hit2);
    assert_eq!(got2, p1);
}

#[test]
fn namespaces_are_not_unified() {
    let mut c = CompoundCache::new();
    let by_name = SerCompound::with_name("Carbon Dioxide");
    let by_smiles = SerCompound::with_smiles("O=C=O");
    let p1 = sample_props(280, "CO2", "44.01", None);
    let p2 = sample_props(280, "CO2", "44.01", Some("carbon dioxide"));
    assert!(c.store(by_name.clone(), FetchOutcome::Fetched(p1.clone())).is_ok());
    assert!(c.store(by_smiles.clone(), FetchOutcome::Fetched(p2.clone())).is_ok());
    assert_eq!(c.get_noreq(by_name), Some(p1));
    assert_eq!(c.get_noreq(by_smiles), Some(p2));
}

#[test]
fn store_error_paths() {
    let mut c = CompoundCache::new();
    let id = SerCompound::with_name("nothing");
    assert_eq!(c.store(id.clone(), FetchOutcome::NoCompound), Err(CacheError::NotFound));
    assert_eq!(c.store(id.clone(), FetchOutcome::Failed), Err(CacheError::ResolutionFailed));
    let bad = SerCompound { namespace: "casnumber".to_string(), identifier: "50-00-0".to_string() };
    let p = sample_props(1, "X", "1.0", None);
    assert_eq!(c.store(bad, FetchOutcome::Fetched(p.clone())), Err(CacheError::InvalidIdentifier));
    // a present key succeeds without consulting the outcome at all
    assert!(c.store(id.clone(), FetchOutcome::Fetched(p)).is_ok());
    assert!(c.store(id, FetchOutcome::Failed).is_ok());
}

#[test]
fn get_propagates_identifier_errors() {
    let mut c = CompoundCache::new();
    let bad_cid = SerCompound { namespace: "cid".to_string(), identifier: "12x".to_string() };
    let p = sample_props(1, "X", "1.0", None);
    assert_eq!(
        c.get(bad_cid, FetchOutcome::Fetched(p)).map(|r| r.0),
        Err(CacheError::MalformedValue)
    );
}

#[test]
fn get_noreq_misses_absent_key() {
    let c = CompoundCache::new();
    assert_eq!(c.get_noreq(SerCompound::with_inchi("InChI=1S/CO2/c2-1-3")), None);
}

#[test]
fn insert_raw_overwrites() {
    let mut c = CompoundCache::new();
    let id = SerCompound::new(280);
    let p1 = sample_props(280, "CO2", "44.01", None);
    let p2 = sample_props(280, "CO2", "44.0095", Some("carbon dioxide"));
    c.insert(id.clone(), p1);
    c.insert(id.clone(), p2.clone());
    assert_eq!(c.get_noreq(id), Some(p2));
}

#[test]
fn deserialize_rejects_missing_cache_key() {
    assert_eq!(
        CompoundCache::deserialize("{}".to_string()).err(),
        Some(CacheError::MissingField)
    );
    assert_eq!(
        CompoundCache::deserialize("{\"other\":1}".to_string()).err(),
        Some(CacheError::MissingField)
    );
    // present but not an array counts as lacking the cache array
    assert_eq!(
        CompoundCache::deserialize("{\"cache\":3}".to_string()).err(),
        Some(CacheError::MissingField)
    );
}

#[test]
fn deserialize_rejects_non_json() {
    assert_eq!(
        CompoundCache::deserialize("garbage".to_string()).err(),
        Some(CacheError::MalformedDocument)
    );
    assert_eq!(
        CompoundCache::deserialize("{\"cache\":[".to_string()).err(),
        Some(CacheError::MalformedDocument)
    );
}

#[test]
fn deserialize_rejects_entry_missing_cid() {
    let mut c = CompoundCache::new();
    let id = SerCompound::with_name("Carbon Dioxide");
    c.insert(id, sample_props(280, "CO2", "44.01", None));
    let text = c.serialize().to_text();
    assert!(text.contains("\"cid\":280,"));
    let broken = text.replace("\"cid\":280,", "");
    assert_eq!(
        CompoundCache::deserialize(broken).err(),
        Some(CacheError::MalformedEntry)
    );
}

#[test]
fn deserialize_rejects_non_object_entry() {
    assert_eq!(
        CompoundCache::deserialize("{\"cache\":[5]}".to_string()).err(),
        Some(CacheError::MalformedEntry)
    );
    assert_eq!(
        CompoundCache::deserialize("{\"cache\":[{}]}".to_string()).err(),
        Some(CacheError::MalformedEntry)
    );
}

#[test]
fn round_trip_reproduces_store() {
    let mut c = CompoundCache::new();
    let k1 = SerCompound::with_name("a\"b\\c\nd");
    let k2 = SerCompound::new(962);
    let k3 = SerCompound::with_inchikey("CURLTUGMZLYLDI-UHFFFAOYSA-N");
    let mut p1 = sample_props(7732, "H2O", "18.015", Some("oxidane"));
    p1.charge = -2;
    p1.xlogp = "-0.5".to_string();
    let p2 = sample_props(962, "H2O", "18.015", None);
    let mut p3 = sample_props(280, "CO2", "44.01", Some("carbon dioxide"));
    p3.heavy_atom_count = 9007199254740993;
    c.insert(k1.clone(), p1.clone());
    c.insert(k2.clone(), p2.clone());
    c.insert(k3.clone(), p3.clone());
    let text = c.serialize().to_text();
    let back = CompoundCache::deserialize(text).unwrap();
    assert_eq!(back.get_noreq(k1), Some(p1));
    assert_eq!(back.get_noreq(k2), Some(p2));
    assert_eq!(back.get_noreq(k3), Some(p3));
}

#[test]
fn serialized_text_is_valid_json() {
    let mut c = CompoundCache::new();
    c.insert(
        SerCompound::with_name("quote \" backslash \\ tab \t"),
        sample_props(1, "X", "1.0", None),
    );
    let text = c.serialize().to_text();
    let v: serde_json::Value = serde_json::from_str(&text).unwrap();
    let entry = &v["cache"][0];
    assert_eq!(entry["namespace"].as_str(), Some("name"));
    assert_eq!(entry["identifier"].as_str(), Some("quote \" backslash \\ tab \t"));
    assert_eq!(entry["properties"]["cid"].as_i64(), Some(1));
    assert!(entry["properties"]["iupac_name"].is_null());
}

#[test]
fn deserialize_tolerates_whitespace_and_reformat() {
    let mut c = CompoundCache::new();
    let id = SerCompound::with_smiles("O");
    let p = sample_props(962, "H2O", "18.015", Some("oxidane"));
    c.insert(id.clone(), p.clone());
    let text = c.serialize().to_text();
    let v: serde_json::Value = serde_json::from_str(&text).unwrap();
    let pretty = serde_json::to_string_pretty(&v).unwrap();
    let back = CompoundCache::deserialize(pretty).unwrap();
    assert_eq!(back.get_noreq(id), Some(p));
}

#[test]
fn deserialize_reads_unicode_escapes() {
    let mut c = CompoundCache::new();
    c.insert(SerCompound::with_name("K1"), sample_props(1, "X", "1.0", None));
    let text = c.serialize().to_text();
    let patched = text.replace("\"identifier\":\"K1\"", "\"identifier\":\"\\u0041B\"");
    let back = CompoundCache::deserialize(patched).unwrap();
    assert!(back.get_noreq(SerCompound::with_name("AB")).is_some());
}

#[test]
fn end_to_end_example() {
    let mut cache = CompoundCache::new();
    let id = SerCompound::with_name("Carbon Dioxide");
    let props = sample_props(280, "CO2", "44.01", Some("carbon dioxide"));
    cache.store(id.clone(), FetchOutcome::Fetched(props.clone())).unwrap();
    let text = cache.serialize().to_text();
    assert!(text.contains("\"namespace\":\"name\""));
    assert!(text.contains("\"identifier\":\"Carbon Dioxide\""));
    assert!(text.contains("\"cid\":280"));
    assert!(text.contains("\"molecular_formula\":\"CO2\""));
    assert!(text.contains("\"molecular_weight\":\"44.01\""));
    let reloaded = CompoundCache::deserialize(text).unwrap();
    assert_eq!(reloaded.get_noreq(id), Some(props));
}

#[test]
fn serialize_empty_store_is_empty_document() {
    let c = CompoundCache::new();
    assert_eq!(c.serialize().to_text(), "{\"cache\":[]}");
    let back = CompoundCache::deserialize("{\"cache\":[]}".to_string()).unwrap();
    assert_eq!(back.get_noreq(SerCompound::new(1)), None);
}

#[test]
fn serialize_one_entry_exact_text() {
    let mut c = CompoundCache::new();
    c.insert(
        SerCompound::with_name("Carbon Dioxide"),
        sample_props(280, "CO2", "44.01", Some("carbon dioxide")),
    );
    let expected = "{\"cache\":[{\"identifier\":\"Carbon Dioxide\",\"namespace\":\"name\",\"properties\":{\"atom_stereo_count\":2,\"bond_stereo_count\":2,\"canonical_smiles\":\"v-canonical-smiles\",\"charge\":2,\"cid\":280,\"complexity\":2,\"conformer_count_3d\":2,\"conformer_model_rmsd_3d\":1.5,\"covalent_unit_count\":2,\"defined_atom_stereo_count\":2,\"defined_bond_stereo_count\":2,\"effective_rotor_count_3d\":1.5,\"exact_mass\":\"v-exact-mass\",\"feature_acceptor_count_3d\":2,\"feature_anion_count_3d\":2,\"feature_cation_count_3d\":2,\"feature_count_3d\":2,\"feature_donor_count_3d\":2,\"feature_hydrophobe_count_3d\":2,\"feature_ring_count_3d\":2,\"fingerprint_2d\":\"v-fingerprint-2d\",\"hbond_acceptor_count\":2,\"hbond_donor_count\":2,\"heavy_atom_count\":2,\"inchi\":\"v-inchi\",\"inchi_key\":\"v-inchi-key\",\"isomeric_smiles\":\"v-isomeric-smiles\",\"isotope_atom_count\":2,\"iupac_name\":\"carbon dioxide\",\"molecular_formula\":\"CO2\",\"molecular_weight\":\"44.01\",\"monoisotopic_mass\":\"v-monoisotopic-mass\",\"rotatable_bond_count\":2,\"title\":\"v-title\",\"tpsa\":1.5,\"undefined_atom_stereo_count\":2,\"undefined_bond_stereo_count\":2,\"volume_3d\":1.5,\"x_steric_quadrupole_3d\":1.5,\"xlogp\":1.5,\"y_steric_quadrupole_3d\":1.5,\"z_steric_quadrupole_3d\":1.5}}]}";
    assert_eq!(c.serialize().to_text(), expected);
}

#[test]
fn deserialize_tolerates_structured_unknown_keys() {
    let mut c = CompoundCache::new();
    let id = SerCompound::with_name("K1");
    let p = sample_props(1, "X", "1.0", None);
    c.insert(id.clone(), p.clone());
    let text = c.serialize().to_text();
    let extra_root = text.replace(
        "{\"cache\":",
        "{\"extra\":{\"a\":[1,null,true],\"b\":{}},\"cache\":",
    );
    let extra_entry = extra_root.replace(
        "{\"identifier\":",
        "{\"junk\":[{\"x\":[]}],\"identifier\":",
    );
    let back = CompoundCache::deserialize(extra_entry).unwrap();
    assert_eq!(back.get_noreq(id), Some(p));
}

#[test]
fn deserialize_rejects_array_as_entry() {
    assert_eq!(
        CompoundCache::deserialize("{\"cache\":[[]]}".to_string()).err(),
        Some(CacheError::MalformedEntry)
    );
}

#[test]
fn deserialize_rejects_structured_property_values() {
    let mut c = CompoundCache::new();
    c.insert(SerCompound::with_name("K1"), sample_props(1, "X", "1.0", None));
    let text = c.serialize().to_text();
    let broken = text.replace("\"tpsa\":1.5", "\"tpsa\":{}");
    assert_eq!(
        CompoundCache::deserialize(broken).err(),
        Some(CacheError::MalformedEntry)
    );
    let flat = "{\"cache\":[{\"namespace\":\"name\",\"identifier\":\"x\",\"properties\":5}]}";
    assert_eq!(
        CompoundCache::deserialize(flat.to_string()).err(),
        Some(CacheError::MalformedEntry)
    );
}

#[test]
fn deserialize_reads_astral_escapes() {
    let mut c = CompoundCache::new();
    c.insert(SerCompound::with_name("K1"), sample_props(1, "X", "1.0", None));
    let text = c.serialize().to_text();
    let patched = text.replace(
        "\"identifier\":\"K1\"",
        "\"identifier\":\"\\uD83D\\uDE00 \\u0394\"",
    );
    let back = CompoundCache::deserialize(patched).unwrap();
    assert!(back.get_noreq(SerCompound::with_name("\u{1F600} \u{0394}")).is_some());
}

#[test]
fn deserialize_rejects_lone_surrogate() {
    let mut c = CompoundCache::new();
    c.insert(SerCompound::with_name("K1"), sample_props(1, "X", "1.0", None));
    let text = c.serialize().to_text();
    let patched = text.replace("\"identifier\":\"K1\"", "\"identifier\":\"\\uD83D\"");
    assert_eq!(
        CompoundCache::deserialize(patched).err(),
        Some(CacheError::MalformedDocument)
    );
}

#[test]
fn wf_checks_number_token_fields() {
    assert!(sample_props(1, "X", "1.0", None).is_wf());
    for good in ["-0.5", "0", "12.5", "1e-7", "12.5E+3", "-0.125e2"] {
        let mut p = sample_props(1, "X", "1.0", None);
        p.tpsa = good.to_string();
        assert!(p.is_wf(), "token {good:?}");
    }
    for bad in ["x", "", "01", "1.", ".5", "+1", "1e", "1.5.2", "NaN", "inf"] {
        let mut p = sample_props(1, "X", "1.0", None);
        p.tpsa = bad.to_string();
        assert!(!p.is_wf(), "token {bad:?}");
    }
}
