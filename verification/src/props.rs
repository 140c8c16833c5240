//! The fixed, wide property record of one compound.
//!
//! Every field except the IUPAC name is mandatory once a record exists.
//! Numeric properties that must reproduce exactly in the persisted document
//! (the mass fields) are carried as strings; the floating-point descriptors
//! are carried as the raw decimal text of their JSON number token, so that
//! persisting a record and loading it back loses nothing.
use vstd::prelude::*;

verus! {

/// Turns an optional string into its optional character-sequence value.
pub open spec fn view_opt_string(o: Option<String>) -> Option<Seq<char>> {
    match o {
        Some(s) => Some(s@),
        None => None,
    }
}

/// One compound's property record, as the resolver reports it and as the
/// persisted document stores it.
#[derive(Debug, PartialEq, Eq)]
pub struct PropertySet {
    pub atom_stereo_count: i64,
    pub bond_stereo_count: i64,
    pub canonical_smiles: String,
    pub charge: i64,
    pub cid: i64,
    pub complexity: i64,
    pub conformer_count_3d: i64,
    pub conformer_model_rmsd_3d: String,
    pub covalent_unit_count: i64,
    pub defined_atom_stereo_count: i64,
    pub defined_bond_stereo_count: i64,
    pub effective_rotor_count_3d: String,
    pub exact_mass: String,
    pub feature_acceptor_count_3d: i64,
    pub feature_anion_count_3d: i64,
    pub feature_cation_count_3d: i64,
    pub feature_count_3d: i64,
    pub feature_donor_count_3d: i64,
    pub feature_hydrophobe_count_3d: i64,
    pub feature_ring_count_3d: i64,
    pub fingerprint_2d: String,
    pub hbond_acceptor_count: i64,
    pub hbond_donor_count: i64,
    pub heavy_atom_count: i64,
    pub inchi: String,
    pub inchi_key: String,
    pub isomeric_smiles: String,
    pub isotope_atom_count: i64,
    pub iupac_name: Option<String>,
    pub molecular_formula: String,
    pub molecular_weight: String,
    pub monoisotopic_mass: String,
    pub rotatable_bond_count: i64,
    pub title: String,
    pub tpsa: String,
    pub undefined_atom_stereo_count: i64,
    pub undefined_bond_stereo_count: i64,
    pub volume_3d: String,
    pub x_steric_quadrupole_3d: String,
    pub xlogp: String,
    pub y_steric_quadrupole_3d: String,
    pub z_steric_quadrupole_3d: String,
}

/// The mathematical value of a property record.
#[verifier::ext_equal]
pub struct PropsM {
    pub atom_stereo_count: i64,
    pub bond_stereo_count: i64,
    pub canonical_smiles: Seq<char>,
    pub charge: i64,
    pub cid: i64,
    pub complexity: i64,
    pub conformer_count_3d: i64,
    pub conformer_model_rmsd_3d: Seq<char>,
    pub covalent_unit_count: i64,
    pub defined_atom_stereo_count: i64,
    pub defined_bond_stereo_count: i64,
    pub effective_rotor_count_3d: Seq<char>,
    pub exact_mass: Seq<char>,
    pub feature_acceptor_count_3d: i64,
    pub feature_anion_count_3d: i64,
    pub feature_cation_count_3d: i64,
    pub feature_count_3d: i64,
    pub feature_donor_count_3d: i64,
    pub feature_hydrophobe_count_3d: i64,
    pub feature_ring_count_3d: i64,
    pub fingerprint_2d: Seq<char>,
    pub hbond_acceptor_count: i64,
    pub hbond_donor_count: i64,
    pub heavy_atom_count: i64,
    pub inchi: Seq<char>,
    pub inchi_key: Seq<char>,
    pub isomeric_smiles: Seq<char>,
    pub isotope_atom_count: i64,
    pub iupac_name: Option<Seq<char>>,
    pub molecular_formula: Seq<char>,
    pub molecular_weight: Seq<char>,
    pub monoisotopic_mass: Seq<char>,
    pub rotatable_bond_count: i64,
    pub title: Seq<char>,
    pub tpsa: Seq<char>,
    pub undefined_atom_stereo_count: i64,
    pub undefined_bond_stereo_count: i64,
    pub volume_3d: Seq<char>,
    pub x_steric_quadrupole_3d: Seq<char>,
    pub xlogp: Seq<char>,
    pub y_steric_quadrupole_3d: Seq<char>,
    pub z_steric_quadrupole_3d: Seq<char>,
}

impl View for PropertySet {
    type V = PropsM;

    open spec fn view(&self) -> PropsM {
        PropsM {
            atom_stereo_count: self.atom_stereo_count,
            bond_stereo_count: self.bond_stereo_count,
            canonical_smiles: self.canonical_smiles@,
            charge: self.charge,
            cid: self.cid,
            complexity: self.complexity,
            conformer_count_3d: self.conformer_count_3d,
            conformer_model_rmsd_3d: self.conformer_model_rmsd_3d@,
            covalent_unit_count: self.covalent_unit_count,
            defined_atom_stereo_count: self.defined_atom_stereo_count,
            defined_bond_stereo_count: self.defined_bond_stereo_count,
            effective_rotor_count_3d: self.effective_rotor_count_3d@,
            exact_mass: self.exact_mass@,
            feature_acceptor_count_3d: self.feature_acceptor_count_3d,
            feature_anion_count_3d: self.feature_anion_count_3d,
            feature_cation_count_3d: self.feature_cation_count_3d,
            feature_count_3d: self.feature_count_3d,
            feature_donor_count_3d: self.feature_donor_count_3d,
            feature_hydrophobe_count_3d: self.feature_hydrophobe_count_3d,
            feature_ring_count_3d: self.feature_ring_count_3d,
            fingerprint_2d: self.fingerprint_2d@,
            hbond_acceptor_count: self.hbond_acceptor_count,
            hbond_donor_count: self.hbond_donor_count,
            heavy_atom_count: self.heavy_atom_count,
            inchi: self.inchi@,
            inchi_key: self.inchi_key@,
            isomeric_smiles: self.isomeric_smiles@,
            isotope_atom_count: self.isotope_atom_count,
            iupac_name: view_opt_string(self.iupac_name),
            molecular_formula: self.molecular_formula@,
            molecular_weight: self.molecular_weight@,
            monoisotopic_mass: self.monoisotopic_mass@,
            rotatable_bond_count: self.rotatable_bond_count,
            title: self.title@,
            tpsa: self.tpsa@,
            undefined_atom_stereo_count: self.undefined_atom_stereo_count,
            undefined_bond_stereo_count: self.undefined_bond_stereo_count,
            volume_3d: self.volume_3d@,
            x_steric_quadrupole_3d: self.x_steric_quadrupole_3d@,
            xlogp: self.xlogp@,
            y_steric_quadrupole_3d: self.y_steric_quadrupole_3d@,
            z_steric_quadrupole_3d: self.z_steric_quadrupole_3d@,
        }
    }
}

impl Clone for PropertySet {
    fn clone(&self) -> (r: Self)
        ensures
            r@ == self@,
    {
        let r = PropertySet {
            atom_stereo_count: self.atom_stereo_count,
            bond_stereo_count: self.bond_stereo_count,
            canonical_smiles: self.canonical_smiles.clone(),
            charge: self.charge,
            cid: self.cid,
            complexity: self.complexity,
            conformer_count_3d: self.conformer_count_3d,
            conformer_model_rmsd_3d: self.conformer_model_rmsd_3d.clone(),
            covalent_unit_count: self.covalent_unit_count,
            defined_atom_stereo_count: self.defined_atom_stereo_count,
            defined_bond_stereo_count: self.defined_bond_stereo_count,
            effective_rotor_count_3d: self.effective_rotor_count_3d.clone(),
            exact_mass: self.exact_mass.clone(),
            feature_acceptor_count_3d: self.feature_acceptor_count_3d,
            feature_anion_count_3d: self.feature_anion_count_3d,
            feature_cation_count_3d: self.feature_cation_count_3d,
            feature_count_3d: self.feature_count_3d,
            feature_donor_count_3d: self.feature_donor_count_3d,
            feature_hydrophobe_count_3d: self.feature_hydrophobe_count_3d,
            feature_ring_count_3d: self.feature_ring_count_3d,
            fingerprint_2d: self.fingerprint_2d.clone(),
            hbond_acceptor_count: self.hbond_acceptor_count,
            hbond_donor_count: self.hbond_donor_count,
            heavy_atom_count: self.heavy_atom_count,
            inchi: self.inchi.clone(),
            inchi_key: self.inchi_key.clone(),
            isomeric_smiles: self.isomeric_smiles.clone(),
            isotope_atom_count: self.isotope_atom_count,
            iupac_name: match &self.iupac_name {
                Some(s) => Some(s.clone()),
                None => None,
            },
            molecular_formula: self.molecular_formula.clone(),
            molecular_weight: self.molecular_weight.clone(),
            monoisotopic_mass: self.monoisotopic_mass.clone(),
            rotatable_bond_count: self.rotatable_bond_count,
            title: self.title.clone(),
            tpsa: self.tpsa.clone(),
            undefined_atom_stereo_count: self.undefined_atom_stereo_count,
            undefined_bond_stereo_count: self.undefined_bond_stereo_count,
            volume_3d: self.volume_3d.clone(),
            x_steric_quadrupole_3d: self.x_steric_quadrupole_3d.clone(),
            xlogp: self.xlogp.clone(),
            y_steric_quadrupole_3d: self.y_steric_quadrupole_3d.clone(),
            z_steric_quadrupole_3d: self.z_steric_quadrupole_3d.clone(),
        };
        proof {
            assert(r@ =~~= self@);
        }
        r
    }
}


impl PropertySet {
    /// The numeric-ness that the schema gives the floating-point
    /// descriptor fields: each holds the text of one JSON number token.  A
    /// record that fails this cannot come from the resolver conversion or
    /// the deserializer, but a hand-built one could, and it would
    /// serialize into text that is not valid JSON.
    pub open spec fn wf(&self) -> bool {
        crate::num::is_number_token(self.conformer_model_rmsd_3d@)
        && crate::num::is_number_token(self.effective_rotor_count_3d@)
        && crate::num::is_number_token(self.tpsa@)
        && crate::num::is_number_token(self.volume_3d@)
        && crate::num::is_number_token(self.x_steric_quadrupole_3d@)
        && crate::num::is_number_token(self.xlogp@)
        && crate::num::is_number_token(self.y_steric_quadrupole_3d@)
        && crate::num::is_number_token(self.z_steric_quadrupole_3d@)
    }

    /// Checks the floating-point descriptor fields against the JSON number
    /// grammar.
    pub fn is_wf(&self) -> (r: bool)
        ensures
            r == self.wf(),
    {
        crate::num::is_number_token_str(self.conformer_model_rmsd_3d.as_str())
            && crate::num::is_number_token_str(self.effective_rotor_count_3d.as_str())
            && crate::num::is_number_token_str(self.tpsa.as_str())
            && crate::num::is_number_token_str(self.volume_3d.as_str())
            && crate::num::is_number_token_str(self.x_steric_quadrupole_3d.as_str())
            && crate::num::is_number_token_str(self.xlogp.as_str())
            && crate::num::is_number_token_str(self.y_steric_quadrupole_3d.as_str())
            && crate::num::is_number_token_str(self.z_steric_quadrupole_3d.as_str())
    }
}

} // verus!
