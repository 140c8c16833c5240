//! The shape of the persisted JSON document, as structured values.
//!
//! A document is one object with a `cache` array; each array element names
//! an identifier and carries a flat object of scalar property fields.  The
//! types here mirror that shape exactly, one field per schema column, and
//! the two directions between a property record and its field row are
//! proved inverse to each other.
use vstd::prelude::*;

use crate::CacheError;
use crate::num::spec_i64_str;
use crate::num::spec_parse_i64;
use crate::num::i64_to_string;
use crate::num::parse_i64_str;
use crate::props::PropertySet;
use crate::props::PropsM;
use crate::props::view_opt_string;

verus! {

/// One scalar JSON value: null, a number token kept as raw text, a string,
/// or a boolean.
pub enum Atom {
    Null,
    NumTok(String),
    Text(String),
    Truth(bool),
}

/// The mathematical value of a scalar JSON value.
pub enum AtomM {
    Null,
    NumTok(Seq<char>),
    Text(Seq<char>),
    Truth(bool),
}

impl View for Atom {
    type V = AtomM;

    open spec fn view(&self) -> AtomM {
        match self {
            Atom::Null => AtomM::Null,
            Atom::NumTok(s) => AtomM::NumTok(s@),
            Atom::Text(s) => AtomM::Text(s@),
            Atom::Truth(b) => AtomM::Truth(*b),
        }
    }
}

/// An optional string as a JSON scalar: the string itself, or null.
pub open spec fn spec_valify(o: Option<Seq<char>>) -> AtomM {
    match o {
        Some(s) => AtomM::Text(s),
        None => AtomM::Null,
    }
}

/// Maps an optional string to a JSON scalar, null standing for absence.
pub fn valify_string(string: &Option<String>) -> (r: Atom)
    ensures
        r@ == spec_valify(view_opt_string(*string)),
{
    match string {
        Some(st) => Atom::Text(st.clone()),
        None => Atom::Null,
    }
}

/// The property object of one document entry: one scalar per schema column.
pub struct RawProps {
    pub atom_stereo_count: Atom,
    pub bond_stereo_count: Atom,
    pub canonical_smiles: Atom,
    pub charge: Atom,
    pub cid: Atom,
    pub complexity: Atom,
    pub conformer_count_3d: Atom,
    pub conformer_model_rmsd_3d: Atom,
    pub covalent_unit_count: Atom,
    pub defined_atom_stereo_count: Atom,
    pub defined_bond_stereo_count: Atom,
    pub effective_rotor_count_3d: Atom,
    pub exact_mass: Atom,
    pub feature_acceptor_count_3d: Atom,
    pub feature_anion_count_3d: Atom,
    pub feature_cation_count_3d: Atom,
    pub feature_count_3d: Atom,
    pub feature_donor_count_3d: Atom,
    pub feature_hydrophobe_count_3d: Atom,
    pub feature_ring_count_3d: Atom,
    pub fingerprint_2d: Atom,
    pub hbond_acceptor_count: Atom,
    pub hbond_donor_count: Atom,
    pub heavy_atom_count: Atom,
    pub inchi: Atom,
    pub inchi_key: Atom,
    pub isomeric_smiles: Atom,
    pub isotope_atom_count: Atom,
    pub iupac_name: Atom,
    pub molecular_formula: Atom,
    pub molecular_weight: Atom,
    pub monoisotopic_mass: Atom,
    pub rotatable_bond_count: Atom,
    pub title: Atom,
    pub tpsa: Atom,
    pub undefined_atom_stereo_count: Atom,
    pub undefined_bond_stereo_count: Atom,
    pub volume_3d: Atom,
    pub x_steric_quadrupole_3d: Atom,
    pub xlogp: Atom,
    pub y_steric_quadrupole_3d: Atom,
    pub z_steric_quadrupole_3d: Atom,
}

/// The mathematical value of a property object.
#[verifier::ext_equal]
pub struct RawPropsM {
    pub atom_stereo_count: AtomM,
    pub bond_stereo_count: AtomM,
    pub canonical_smiles: AtomM,
    pub charge: AtomM,
    pub cid: AtomM,
    pub complexity: AtomM,
    pub conformer_count_3d: AtomM,
    pub conformer_model_rmsd_3d: AtomM,
    pub covalent_unit_count: AtomM,
    pub defined_atom_stereo_count: AtomM,
    pub defined_bond_stereo_count: AtomM,
    pub effective_rotor_count_3d: AtomM,
    pub exact_mass: AtomM,
    pub feature_acceptor_count_3d: AtomM,
    pub feature_anion_count_3d: AtomM,
    pub feature_cation_count_3d: AtomM,
    pub feature_count_3d: AtomM,
    pub feature_donor_count_3d: AtomM,
    pub feature_hydrophobe_count_3d: AtomM,
    pub feature_ring_count_3d: AtomM,
    pub fingerprint_2d: AtomM,
    pub hbond_acceptor_count: AtomM,
    pub hbond_donor_count: AtomM,
    pub heavy_atom_count: AtomM,
    pub inchi: AtomM,
    pub inchi_key: AtomM,
    pub isomeric_smiles: AtomM,
    pub isotope_atom_count: AtomM,
    pub iupac_name: AtomM,
    pub molecular_formula: AtomM,
    pub molecular_weight: AtomM,
    pub monoisotopic_mass: AtomM,
    pub rotatable_bond_count: AtomM,
    pub title: AtomM,
    pub tpsa: AtomM,
    pub undefined_atom_stereo_count: AtomM,
    pub undefined_bond_stereo_count: AtomM,
    pub volume_3d: AtomM,
    pub x_steric_quadrupole_3d: AtomM,
    pub xlogp: AtomM,
    pub y_steric_quadrupole_3d: AtomM,
    pub z_steric_quadrupole_3d: AtomM,
}

impl View for RawProps {
    type V = RawPropsM;

    open spec fn view(&self) -> RawPropsM {
        RawPropsM {
            atom_stereo_count: self.atom_stereo_count@,
            bond_stereo_count: self.bond_stereo_count@,
            canonical_smiles: self.canonical_smiles@,
            charge: self.charge@,
            cid: self.cid@,
            complexity: self.complexity@,
            conformer_count_3d: self.conformer_count_3d@,
            conformer_model_rmsd_3d: self.conformer_model_rmsd_3d@,
            covalent_unit_count: self.covalent_unit_count@,
            defined_atom_stereo_count: self.defined_atom_stereo_count@,
            defined_bond_stereo_count: self.defined_bond_stereo_count@,
            effective_rotor_count_3d: self.effective_rotor_count_3d@,
            exact_mass: self.exact_mass@,
            feature_acceptor_count_3d: self.feature_acceptor_count_3d@,
            feature_anion_count_3d: self.feature_anion_count_3d@,
            feature_cation_count_3d: self.feature_cation_count_3d@,
            feature_count_3d: self.feature_count_3d@,
            feature_donor_count_3d: self.feature_donor_count_3d@,
            feature_hydrophobe_count_3d: self.feature_hydrophobe_count_3d@,
            feature_ring_count_3d: self.feature_ring_count_3d@,
            fingerprint_2d: self.fingerprint_2d@,
            hbond_acceptor_count: self.hbond_acceptor_count@,
            hbond_donor_count: self.hbond_donor_count@,
            heavy_atom_count: self.heavy_atom_count@,
            inchi: self.inchi@,
            inchi_key: self.inchi_key@,
            isomeric_smiles: self.isomeric_smiles@,
            isotope_atom_count: self.isotope_atom_count@,
            iupac_name: self.iupac_name@,
            molecular_formula: self.molecular_formula@,
            molecular_weight: self.molecular_weight@,
            monoisotopic_mass: self.monoisotopic_mass@,
            rotatable_bond_count: self.rotatable_bond_count@,
            title: self.title@,
            tpsa: self.tpsa@,
            undefined_atom_stereo_count: self.undefined_atom_stereo_count@,
            undefined_bond_stereo_count: self.undefined_bond_stereo_count@,
            volume_3d: self.volume_3d@,
            x_steric_quadrupole_3d: self.x_steric_quadrupole_3d@,
            xlogp: self.xlogp@,
            y_steric_quadrupole_3d: self.y_steric_quadrupole_3d@,
            z_steric_quadrupole_3d: self.z_steric_quadrupole_3d@,
        }
    }
}

/// One element of the `cache` array: the identifier pair and the properties.
pub struct JsonEntry {
    pub namespace: String,
    pub identifier: String,
    pub props: RawProps,
}

/// The mathematical value of one array element.
#[verifier::ext_equal]
pub struct EntryM {
    pub ns: Seq<char>,
    pub id: Seq<char>,
    pub props: RawPropsM,
}

impl View for JsonEntry {
    type V = EntryM;

    open spec fn view(&self) -> EntryM {
        EntryM { ns: self.namespace@, id: self.identifier@, props: self.props@ }
    }
}

/// The whole persisted document: the `cache` array.
pub struct JsonDoc {
    pub entries: Vec<JsonEntry>,
}

impl View for JsonDoc {
    type V = Seq<EntryM>;

    open spec fn view(&self) -> Seq<EntryM> {
        self.entries@.map_values(|e: JsonEntry| e@)
    }
}

/// An integer property field: a number token holding a signed integer.
pub open spec fn spec_int_field(a: AtomM) -> Option<i64> {
    match a {
        AtomM::NumTok(s) => spec_parse_i64(s),
        _ => None,
    }
}

/// A floating-point property field: any number token, kept as raw text.
pub open spec fn spec_tok_field(a: AtomM) -> Option<Seq<char>> {
    match a {
        AtomM::NumTok(s) => Some(s),
        _ => None,
    }
}

/// A string property field.
pub open spec fn spec_str_field(a: AtomM) -> Option<Seq<char>> {
    match a {
        AtomM::Text(s) => Some(s),
        _ => None,
    }
}

/// A nullable string property field: null stands for absence.
pub open spec fn spec_opt_field(a: AtomM) -> Option<Option<Seq<char>>> {
    match a {
        AtomM::Text(s) => Some(Some(s)),
        AtomM::Null => Some(None),
        _ => None,
    }
}

fn int_field(a: &Atom) -> (r: Result<i64, CacheError>)
    ensures
        match r {
            Ok(v) => spec_int_field(a@) == Some(v),
            Err(e) => spec_int_field(a@) is None && e == CacheError::MalformedEntry,
        },
{
    match a {
        Atom::NumTok(s) => match parse_i64_str(s.as_str()) {
            Some(v) => Ok(v),
            None => Err(CacheError::MalformedEntry),
        },
        _ => Err(CacheError::MalformedEntry),
    }
}

fn tok_field(a: &Atom) -> (r: Result<String, CacheError>)
    ensures
        match r {
            Ok(v) => spec_tok_field(a@) == Some(v@),
            Err(e) => spec_tok_field(a@) is None && e == CacheError::MalformedEntry,
        },
{
    match a {
        Atom::NumTok(s) => Ok(s.clone()),
        _ => Err(CacheError::MalformedEntry),
    }
}

fn str_field(a: &Atom) -> (r: Result<String, CacheError>)
    ensures
        match r {
            Ok(v) => spec_str_field(a@) == Some(v@),
            Err(e) => spec_str_field(a@) is None && e == CacheError::MalformedEntry,
        },
{
    match a {
        Atom::Text(s) => Ok(s.clone()),
        _ => Err(CacheError::MalformedEntry),
    }
}

fn opt_field(a: &Atom) -> (r: Result<Option<String>, CacheError>)
    ensures
        match r {
            Ok(v) => spec_opt_field(a@) == Some(view_opt_string(v)),
            Err(e) => spec_opt_field(a@) is None && e == CacheError::MalformedEntry,
        },
{
    match a {
        Atom::Text(s) => Ok(Some(s.clone())),
        Atom::Null => Ok(None),
        _ => Err(CacheError::MalformedEntry),
    }
}

/// How a property record serializes into its field row.
pub open spec fn spec_props_to_raw(p: PropsM) -> RawPropsM {
    RawPropsM {
        atom_stereo_count: AtomM::NumTok(spec_i64_str(p.atom_stereo_count as int)),
        bond_stereo_count: AtomM::NumTok(spec_i64_str(p.bond_stereo_count as int)),
        canonical_smiles: AtomM::Text(p.canonical_smiles),
        charge: AtomM::NumTok(spec_i64_str(p.charge as int)),
        cid: AtomM::NumTok(spec_i64_str(p.cid as int)),
        complexity: AtomM::NumTok(spec_i64_str(p.complexity as int)),
        conformer_count_3d: AtomM::NumTok(spec_i64_str(p.conformer_count_3d as int)),
        conformer_model_rmsd_3d: AtomM::NumTok(p.conformer_model_rmsd_3d),
        covalent_unit_count: AtomM::NumTok(spec_i64_str(p.covalent_unit_count as int)),
        defined_atom_stereo_count: AtomM::NumTok(spec_i64_str(p.defined_atom_stereo_count as int)),
        defined_bond_stereo_count: AtomM::NumTok(spec_i64_str(p.defined_bond_stereo_count as int)),
        effective_rotor_count_3d: AtomM::NumTok(p.effective_rotor_count_3d),
        exact_mass: AtomM::Text(p.exact_mass),
        feature_acceptor_count_3d: AtomM::NumTok(spec_i64_str(p.feature_acceptor_count_3d as int)),
        feature_anion_count_3d: AtomM::NumTok(spec_i64_str(p.feature_anion_count_3d as int)),
        feature_cation_count_3d: AtomM::NumTok(spec_i64_str(p.feature_cation_count_3d as int)),
        feature_count_3d: AtomM::NumTok(spec_i64_str(p.feature_count_3d as int)),
        feature_donor_count_3d: AtomM::NumTok(spec_i64_str(p.feature_donor_count_3d as int)),
        feature_hydrophobe_count_3d: AtomM::NumTok(spec_i64_str(p.feature_hydrophobe_count_3d as int)),
        feature_ring_count_3d: AtomM::NumTok(spec_i64_str(p.feature_ring_count_3d as int)),
        fingerprint_2d: AtomM::Text(p.fingerprint_2d),
        hbond_acceptor_count: AtomM::NumTok(spec_i64_str(p.hbond_acceptor_count as int)),
        hbond_donor_count: AtomM::NumTok(spec_i64_str(p.hbond_donor_count as int)),
        heavy_atom_count: AtomM::NumTok(spec_i64_str(p.heavy_atom_count as int)),
        inchi: AtomM::Text(p.inchi),
        inchi_key: AtomM::Text(p.inchi_key),
        isomeric_smiles: AtomM::Text(p.isomeric_smiles),
        isotope_atom_count: AtomM::NumTok(spec_i64_str(p.isotope_atom_count as int)),
        iupac_name: spec_valify(p.iupac_name),
        molecular_formula: AtomM::Text(p.molecular_formula),
        molecular_weight: AtomM::Text(p.molecular_weight),
        monoisotopic_mass: AtomM::Text(p.monoisotopic_mass),
        rotatable_bond_count: AtomM::NumTok(spec_i64_str(p.rotatable_bond_count as int)),
        title: AtomM::Text(p.title),
        tpsa: AtomM::NumTok(p.tpsa),
        undefined_atom_stereo_count: AtomM::NumTok(spec_i64_str(p.undefined_atom_stereo_count as int)),
        undefined_bond_stereo_count: AtomM::NumTok(spec_i64_str(p.undefined_bond_stereo_count as int)),
        volume_3d: AtomM::NumTok(p.volume_3d),
        x_steric_quadrupole_3d: AtomM::NumTok(p.x_steric_quadrupole_3d),
        xlogp: AtomM::NumTok(p.xlogp),
        y_steric_quadrupole_3d: AtomM::NumTok(p.y_steric_quadrupole_3d),
        z_steric_quadrupole_3d: AtomM::NumTok(p.z_steric_quadrupole_3d),
    }
}

/// Serializes one property record into its field row.
pub fn props_to_raw(p: &PropertySet) -> (r: RawProps)
    ensures
        r@ == spec_props_to_raw(p@),
{
    let r = RawProps {
        atom_stereo_count: Atom::NumTok(i64_to_string(p.atom_stereo_count)),
        bond_stereo_count: Atom::NumTok(i64_to_string(p.bond_stereo_count)),
        canonical_smiles: Atom::Text(p.canonical_smiles.clone()),
        charge: Atom::NumTok(i64_to_string(p.charge)),
        cid: Atom::NumTok(i64_to_string(p.cid)),
        complexity: Atom::NumTok(i64_to_string(p.complexity)),
        conformer_count_3d: Atom::NumTok(i64_to_string(p.conformer_count_3d)),
        conformer_model_rmsd_3d: Atom::NumTok(p.conformer_model_rmsd_3d.clone()),
        covalent_unit_count: Atom::NumTok(i64_to_string(p.covalent_unit_count)),
        defined_atom_stereo_count: Atom::NumTok(i64_to_string(p.defined_atom_stereo_count)),
        defined_bond_stereo_count: Atom::NumTok(i64_to_string(p.defined_bond_stereo_count)),
        effective_rotor_count_3d: Atom::NumTok(p.effective_rotor_count_3d.clone()),
        exact_mass: Atom::Text(p.exact_mass.clone()),
        feature_acceptor_count_3d: Atom::NumTok(i64_to_string(p.feature_acceptor_count_3d)),
        feature_anion_count_3d: Atom::NumTok(i64_to_string(p.feature_anion_count_3d)),
        feature_cation_count_3d: Atom::NumTok(i64_to_string(p.feature_cation_count_3d)),
        feature_count_3d: Atom::NumTok(i64_to_string(p.feature_count_3d)),
        feature_donor_count_3d: Atom::NumTok(i64_to_string(p.feature_donor_count_3d)),
        feature_hydrophobe_count_3d: Atom::NumTok(i64_to_string(p.feature_hydrophobe_count_3d)),
        feature_ring_count_3d: Atom::NumTok(i64_to_string(p.feature_ring_count_3d)),
        fingerprint_2d: Atom::Text(p.fingerprint_2d.clone()),
        hbond_acceptor_count: Atom::NumTok(i64_to_string(p.hbond_acceptor_count)),
        hbond_donor_count: Atom::NumTok(i64_to_string(p.hbond_donor_count)),
        heavy_atom_count: Atom::NumTok(i64_to_string(p.heavy_atom_count)),
        inchi: Atom::Text(p.inchi.clone()),
        inchi_key: Atom::Text(p.inchi_key.clone()),
        isomeric_smiles: Atom::Text(p.isomeric_smiles.clone()),
        isotope_atom_count: Atom::NumTok(i64_to_string(p.isotope_atom_count)),
        iupac_name: valify_string(&p.iupac_name),
        molecular_formula: Atom::Text(p.molecular_formula.clone()),
        molecular_weight: Atom::Text(p.molecular_weight.clone()),
        monoisotopic_mass: Atom::Text(p.monoisotopic_mass.clone()),
        rotatable_bond_count: Atom::NumTok(i64_to_string(p.rotatable_bond_count)),
        title: Atom::Text(p.title.clone()),
        tpsa: Atom::NumTok(p.tpsa.clone()),
        undefined_atom_stereo_count: Atom::NumTok(i64_to_string(p.undefined_atom_stereo_count)),
        undefined_bond_stereo_count: Atom::NumTok(i64_to_string(p.undefined_bond_stereo_count)),
        volume_3d: Atom::NumTok(p.volume_3d.clone()),
        x_steric_quadrupole_3d: Atom::NumTok(p.x_steric_quadrupole_3d.clone()),
        xlogp: Atom::NumTok(p.xlogp.clone()),
        y_steric_quadrupole_3d: Atom::NumTok(p.y_steric_quadrupole_3d.clone()),
        z_steric_quadrupole_3d: Atom::NumTok(p.z_steric_quadrupole_3d.clone()),
    };
    proof {
        assert(r@ =~~= spec_props_to_raw(p@));
    }
    r
}

/// How a field row reads back into a property record: every mandatory
/// field must be present with its schema type, integer tokens must read as
/// signed integers, and only the IUPAC name may be null.
pub open spec fn spec_raw_to_props(r: RawPropsM) -> Option<PropsM> {
    if spec_int_field(r.atom_stereo_count) is Some
        && spec_int_field(r.bond_stereo_count) is Some
        && spec_str_field(r.canonical_smiles) is Some
        && spec_int_field(r.charge) is Some
        && spec_int_field(r.cid) is Some
        && spec_int_field(r.complexity) is Some
        && spec_int_field(r.conformer_count_3d) is Some
        && spec_tok_field(r.conformer_model_rmsd_3d) is Some
        && spec_int_field(r.covalent_unit_count) is Some
        && spec_int_field(r.defined_atom_stereo_count) is Some
        && spec_int_field(r.defined_bond_stereo_count) is Some
        && spec_tok_field(r.effective_rotor_count_3d) is Some
        && spec_str_field(r.exact_mass) is Some
        && spec_int_field(r.feature_acceptor_count_3d) is Some
        && spec_int_field(r.feature_anion_count_3d) is Some
        && spec_int_field(r.feature_cation_count_3d) is Some
        && spec_int_field(r.feature_count_3d) is Some
        && spec_int_field(r.feature_donor_count_3d) is Some
        && spec_int_field(r.feature_hydrophobe_count_3d) is Some
        && spec_int_field(r.feature_ring_count_3d) is Some
        && spec_str_field(r.fingerprint_2d) is Some
        && spec_int_field(r.hbond_acceptor_count) is Some
        && spec_int_field(r.hbond_donor_count) is Some
        && spec_int_field(r.heavy_atom_count) is Some
        && spec_str_field(r.inchi) is Some
        && spec_str_field(r.inchi_key) is Some
        && spec_str_field(r.isomeric_smiles) is Some
        && spec_int_field(r.isotope_atom_count) is Some
        && spec_opt_field(r.iupac_name) is Some
        && spec_str_field(r.molecular_formula) is Some
        && spec_str_field(r.molecular_weight) is Some
        && spec_str_field(r.monoisotopic_mass) is Some
        && spec_int_field(r.rotatable_bond_count) is Some
        && spec_str_field(r.title) is Some
        && spec_tok_field(r.tpsa) is Some
        && spec_int_field(r.undefined_atom_stereo_count) is Some
        && spec_int_field(r.undefined_bond_stereo_count) is Some
        && spec_tok_field(r.volume_3d) is Some
        && spec_tok_field(r.x_steric_quadrupole_3d) is Some
        && spec_tok_field(r.xlogp) is Some
        && spec_tok_field(r.y_steric_quadrupole_3d) is Some
        && spec_tok_field(r.z_steric_quadrupole_3d) is Some {
        Some(PropsM {
            atom_stereo_count: spec_int_field(r.atom_stereo_count).unwrap(),
            bond_stereo_count: spec_int_field(r.bond_stereo_count).unwrap(),
            canonical_smiles: spec_str_field(r.canonical_smiles).unwrap(),
            charge: spec_int_field(r.charge).unwrap(),
            cid: spec_int_field(r.cid).unwrap(),
            complexity: spec_int_field(r.complexity).unwrap(),
            conformer_count_3d: spec_int_field(r.conformer_count_3d).unwrap(),
            conformer_model_rmsd_3d: spec_tok_field(r.conformer_model_rmsd_3d).unwrap(),
            covalent_unit_count: spec_int_field(r.covalent_unit_count).unwrap(),
            defined_atom_stereo_count: spec_int_field(r.defined_atom_stereo_count).unwrap(),
            defined_bond_stereo_count: spec_int_field(r.defined_bond_stereo_count).unwrap(),
            effective_rotor_count_3d: spec_tok_field(r.effective_rotor_count_3d).unwrap(),
            exact_mass: spec_str_field(r.exact_mass).unwrap(),
            feature_acceptor_count_3d: spec_int_field(r.feature_acceptor_count_3d).unwrap(),
            feature_anion_count_3d: spec_int_field(r.feature_anion_count_3d).unwrap(),
            feature_cation_count_3d: spec_int_field(r.feature_cation_count_3d).unwrap(),
            feature_count_3d: spec_int_field(r.feature_count_3d).unwrap(),
            feature_donor_count_3d: spec_int_field(r.feature_donor_count_3d).unwrap(),
            feature_hydrophobe_count_3d: spec_int_field(r.feature_hydrophobe_count_3d).unwrap(),
            feature_ring_count_3d: spec_int_field(r.feature_ring_count_3d).unwrap(),
            fingerprint_2d: spec_str_field(r.fingerprint_2d).unwrap(),
            hbond_acceptor_count: spec_int_field(r.hbond_acceptor_count).unwrap(),
            hbond_donor_count: spec_int_field(r.hbond_donor_count).unwrap(),
            heavy_atom_count: spec_int_field(r.heavy_atom_count).unwrap(),
            inchi: spec_str_field(r.inchi).unwrap(),
            inchi_key: spec_str_field(r.inchi_key).unwrap(),
            isomeric_smiles: spec_str_field(r.isomeric_smiles).unwrap(),
            isotope_atom_count: spec_int_field(r.isotope_atom_count).unwrap(),
            iupac_name: spec_opt_field(r.iupac_name).unwrap(),
            molecular_formula: spec_str_field(r.molecular_formula).unwrap(),
            molecular_weight: spec_str_field(r.molecular_weight).unwrap(),
            monoisotopic_mass: spec_str_field(r.monoisotopic_mass).unwrap(),
            rotatable_bond_count: spec_int_field(r.rotatable_bond_count).unwrap(),
            title: spec_str_field(r.title).unwrap(),
            tpsa: spec_tok_field(r.tpsa).unwrap(),
            undefined_atom_stereo_count: spec_int_field(r.undefined_atom_stereo_count).unwrap(),
            undefined_bond_stereo_count: spec_int_field(r.undefined_bond_stereo_count).unwrap(),
            volume_3d: spec_tok_field(r.volume_3d).unwrap(),
            x_steric_quadrupole_3d: spec_tok_field(r.x_steric_quadrupole_3d).unwrap(),
            xlogp: spec_tok_field(r.xlogp).unwrap(),
            y_steric_quadrupole_3d: spec_tok_field(r.y_steric_quadrupole_3d).unwrap(),
            z_steric_quadrupole_3d: spec_tok_field(r.z_steric_quadrupole_3d).unwrap(),
        })
    } else {
        None
    }
}

/// Reads one field row back into a property record, failing with
/// `MalformedEntry` on a missing or wrong-typed mandatory field.
pub fn raw_to_props(r: &RawProps) -> (res: Result<PropertySet, CacheError>)
    ensures
        match res {
            Ok(p) => spec_raw_to_props(r@) == Some(p@),
            Err(e) => spec_raw_to_props(r@) is None && e == CacheError::MalformedEntry,
        },
{
    let atom_stereo_count = match int_field(&r.atom_stereo_count) {
        Ok(v) => v,
        Err(e) => {
            return Err(e);
        },
    };
    let bond_stereo_count = match int_field(&r.bond_stereo_count) {
        Ok(v) => v,
        Err(e) => {
            return Err(e);
        },
    };
    let canonical_smiles = match str_field(&r.canonical_smiles) {
        Ok(v) => v,
        Err(e) => {
            return Err(e);
        },
    };
    let charge = match int_field(&r.charge) {
        Ok(v) => v,
        Err(e) => {
            return Err(e);
        },
    };
    let cid = match int_field(&r.cid) {
        Ok(v) => v,
        Err(e) => {
            return Err(e);
        },
    };
    let complexity = match int_field(&r.complexity) {
        Ok(v) => v,
        Err(e) => {
            return Err(e);
        },
    };
    let conformer_count_3d = match int_field(&r.conformer_count_3d) {
        Ok(v) => v,
        Err(e) => {
            return Err(e);
        },
    };
    let conformer_model_rmsd_3d = match tok_field(&r.conformer_model_rmsd_3d) {
        Ok(v) => v,
        Err(e) => {
            return Err(e);
        },
    };
    let covalent_unit_count = match int_field(&r.covalent_unit_count) {
        Ok(v) => v,
        Err(e) => {
            return Err(e);
        },
    };
    let defined_atom_stereo_count = match int_field(&r.defined_atom_stereo_count) {
        Ok(v) => v,
        Err(e) => {
            return Err(e);
        },
    };
    let defined_bond_stereo_count = match int_field(&r.defined_bond_stereo_count) {
        Ok(v) => v,
        Err(e) => {
            return Err(e);
        },
    };
    let effective_rotor_count_3d = match tok_field(&r.effective_rotor_count_3d) {
        Ok(v) => v,
        Err(e) => {
            return Err(e);
        },
    };
    let exact_mass = match str_field(&r.exact_mass) {
        Ok(v) => v,
        Err(e) => {
            return Err(e);
        },
    };
    let feature_acceptor_count_3d = match int_field(&r.feature_acceptor_count_3d) {
        Ok(v) => v,
        Err(e) => {
            return Err(e);
        },
    };
    let feature_anion_count_3d = match int_field(&r.feature_anion_count_3d) {
        Ok(v) => v,
        Err(e) => {
            return Err(e);
        },
    };
    let feature_cation_count_3d = match int_field(&r.feature_cation_count_3d) {
        Ok(v) => v,
        Err(e) => {
            return Err(e);
        },
    };
    let feature_count_3d = match int_field(&r.feature_count_3d) {
        Ok(v) => v,
        Err(e) => {
            return Err(e);
        },
    };
    let feature_donor_count_3d = match int_field(&r.feature_donor_count_3d) {
        Ok(v) => v,
        Err(e) => {
            return Err(e);
        },
    };
    let feature_hydrophobe_count_3d = match int_field(&r.feature_hydrophobe_count_3d) {
        Ok(v) => v,
        Err(e) => {
            return Err(e);
        },
    };
    let feature_ring_count_3d = match int_field(&r.feature_ring_count_3d) {
        Ok(v) => v,
        Err(e) => {
            return Err(e);
        },
    };
    let fingerprint_2d = match str_field(&r.fingerprint_2d) {
        Ok(v) => v,
        Err(e) => {
            return Err(e);
        },
    };
    let hbond_acceptor_count = match int_field(&r.hbond_acceptor_count) {
        Ok(v) => v,
        Err(e) => {
            return Err(e);
        },
    };
    let hbond_donor_count = match int_field(&r.hbond_donor_count) {
        Ok(v) => v,
        Err(e) => {
            return Err(e);
        },
    };
    let heavy_atom_count = match int_field(&r.heavy_atom_count) {
        Ok(v) => v,
        Err(e) => {
            return Err(e);
        },
    };
    let inchi = match str_field(&r.inchi) {
        Ok(v) => v,
        Err(e) => {
            return Err(e);
        },
    };
    let inchi_key = match str_field(&r.inchi_key) {
        Ok(v) => v,
        Err(e) => {
            return Err(e);
        },
    };
    let isomeric_smiles = match str_field(&r.isomeric_smiles) {
        Ok(v) => v,
        Err(e) => {
            return Err(e);
        },
    };
    let isotope_atom_count = match int_field(&r.isotope_atom_count) {
        Ok(v) => v,
        Err(e) => {
            return Err(e);
        },
    };
    let iupac_name = match opt_field(&r.iupac_name) {
        Ok(v) => v,
        Err(e) => {
            return Err(e);
        },
    };
    let molecular_formula = match str_field(&r.molecular_formula) {
        Ok(v) => v,
        Err(e) => {
            return Err(e);
        },
    };
    let molecular_weight = match str_field(&r.molecular_weight) {
        Ok(v) => v,
        Err(e) => {
            return Err(e);
        },
    };
    let monoisotopic_mass = match str_field(&r.monoisotopic_mass) {
        Ok(v) => v,
        Err(e) => {
            return Err(e);
        },
    };
    let rotatable_bond_count = match int_field(&r.rotatable_bond_count) {
        Ok(v) => v,
        Err(e) => {
            return Err(e);
        },
    };
    let title = match str_field(&r.title) {
        Ok(v) => v,
        Err(e) => {
            return Err(e);
        },
    };
    let tpsa = match tok_field(&r.tpsa) {
        Ok(v) => v,
        Err(e) => {
            return Err(e);
        },
    };
    let undefined_atom_stereo_count = match int_field(&r.undefined_atom_stereo_count) {
        Ok(v) => v,
        Err(e) => {
            return Err(e);
        },
    };
    let undefined_bond_stereo_count = match int_field(&r.undefined_bond_stereo_count) {
        Ok(v) => v,
        Err(e) => {
            return Err(e);
        },
    };
    let volume_3d = match tok_field(&r.volume_3d) {
        Ok(v) => v,
        Err(e) => {
            return Err(e);
        },
    };
    let x_steric_quadrupole_3d = match tok_field(&r.x_steric_quadrupole_3d) {
        Ok(v) => v,
        Err(e) => {
            return Err(e);
        },
    };
    let xlogp = match tok_field(&r.xlogp) {
        Ok(v) => v,
        Err(e) => {
            return Err(e);
        },
    };
    let y_steric_quadrupole_3d = match tok_field(&r.y_steric_quadrupole_3d) {
        Ok(v) => v,
        Err(e) => {
            return Err(e);
        },
    };
    let z_steric_quadrupole_3d = match tok_field(&r.z_steric_quadrupole_3d) {
        Ok(v) => v,
        Err(e) => {
            return Err(e);
        },
    };
    let p = PropertySet {
        atom_stereo_count,
        bond_stereo_count,
        canonical_smiles,
        charge,
        cid,
        complexity,
        conformer_count_3d,
        conformer_model_rmsd_3d,
        covalent_unit_count,
        defined_atom_stereo_count,
        defined_bond_stereo_count,
        effective_rotor_count_3d,
        exact_mass,
        feature_acceptor_count_3d,
        feature_anion_count_3d,
        feature_cation_count_3d,
        feature_count_3d,
        feature_donor_count_3d,
        feature_hydrophobe_count_3d,
        feature_ring_count_3d,
        fingerprint_2d,
        hbond_acceptor_count,
        hbond_donor_count,
        heavy_atom_count,
        inchi,
        inchi_key,
        isomeric_smiles,
        isotope_atom_count,
        iupac_name,
        molecular_formula,
        molecular_weight,
        monoisotopic_mass,
        rotatable_bond_count,
        title,
        tpsa,
        undefined_atom_stereo_count,
        undefined_bond_stereo_count,
        volume_3d,
        x_steric_quadrupole_3d,
        xlogp,
        y_steric_quadrupole_3d,
        z_steric_quadrupole_3d,
    };
    proof {
        assert(spec_raw_to_props(r@).unwrap() =~~= p@);
    }
    Ok(p)
}

/// Serializing a property record and reading the row back gives the same
/// record: field-for-field round-trip fidelity of the schema.
pub proof fn lemma_raw_round_trip(p: PropsM)
    ensures
        spec_raw_to_props(spec_props_to_raw(p)) == Some(p),
{
    crate::num::lemma_i64_round_trip(p.atom_stereo_count);
    crate::num::lemma_i64_round_trip(p.bond_stereo_count);
    crate::num::lemma_i64_round_trip(p.charge);
    crate::num::lemma_i64_round_trip(p.cid);
    crate::num::lemma_i64_round_trip(p.complexity);
    crate::num::lemma_i64_round_trip(p.conformer_count_3d);
    crate::num::lemma_i64_round_trip(p.covalent_unit_count);
    crate::num::lemma_i64_round_trip(p.defined_atom_stereo_count);
    crate::num::lemma_i64_round_trip(p.defined_bond_stereo_count);
    crate::num::lemma_i64_round_trip(p.feature_acceptor_count_3d);
    crate::num::lemma_i64_round_trip(p.feature_anion_count_3d);
    crate::num::lemma_i64_round_trip(p.feature_cation_count_3d);
    crate::num::lemma_i64_round_trip(p.feature_count_3d);
    crate::num::lemma_i64_round_trip(p.feature_donor_count_3d);
    crate::num::lemma_i64_round_trip(p.feature_hydrophobe_count_3d);
    crate::num::lemma_i64_round_trip(p.feature_ring_count_3d);
    crate::num::lemma_i64_round_trip(p.hbond_acceptor_count);
    crate::num::lemma_i64_round_trip(p.hbond_donor_count);
    crate::num::lemma_i64_round_trip(p.heavy_atom_count);
    crate::num::lemma_i64_round_trip(p.isotope_atom_count);
    crate::num::lemma_i64_round_trip(p.rotatable_bond_count);
    crate::num::lemma_i64_round_trip(p.undefined_atom_stereo_count);
    crate::num::lemma_i64_round_trip(p.undefined_bond_stereo_count);
    assert(spec_raw_to_props(spec_props_to_raw(p)).unwrap() =~~= p);
}

} // verus!
