//! Printing the structured document as JSON text.
//!
//! The printer emits one canonical form: no whitespace, object keys in
//! fixed alphabetical order, strings escaped with `\"`, `\\` and `\u00XX`
//! for control characters.  Every function's output equals its spec-level
//! text, character for character.
use vstd::prelude::*;
use vstd::string::*;

use crate::doc::Atom;
use crate::doc::AtomM;
use crate::doc::EntryM;
use crate::doc::JsonDoc;
use crate::doc::JsonEntry;
use crate::doc::RawProps;
use crate::doc::RawPropsM;
use crate::num::push_char;

verus! {

/// The character for one hexadecimal digit value, lower case.
pub open spec fn hex_digit(d: nat) -> char {
    if d == 0 {
        '0'
    } else if d == 1 {
        '1'
    } else if d == 2 {
        '2'
    } else if d == 3 {
        '3'
    } else if d == 4 {
        '4'
    } else if d == 5 {
        '5'
    } else if d == 6 {
        '6'
    } else if d == 7 {
        '7'
    } else if d == 8 {
        '8'
    } else if d == 9 {
        '9'
    } else if d == 10 {
        'a'
    } else if d == 11 {
        'b'
    } else if d == 12 {
        'c'
    } else if d == 13 {
        'd'
    } else if d == 14 {
        'e'
    } else {
        'f'
    }
}

/// How one character appears inside a JSON string: quote and backslash are
/// escaped, control characters take the `\u00XX` form, everything else
/// stands for itself.
pub open spec fn spec_escape_char(c: char) -> Seq<char> {
    if c == '"' {
        seq!['\\', '"']
    } else if c == '\\' {
        seq!['\\', '\\']
    } else if (c as u32) < 32 {
        seq!['\\', 'u', '0', '0', hex_digit((c as u32 / 16) as nat), hex_digit(
            (c as u32 % 16) as nat,
        )]
    } else {
        seq![c]
    }
}

/// A whole string's escaped body.
pub open spec fn spec_escape(s: Seq<char>) -> Seq<char>
    decreases s.len(),
{
    if s.len() == 0 {
        Seq::<char>::empty()
    } else {
        spec_escape_char(s[0]) + spec_escape(s.skip(1))
    }
}

/// A JSON string literal: the escaped body between quotes.
pub open spec fn spec_quote(s: Seq<char>) -> Seq<char> {
    seq!['"'] + spec_escape(s) + seq!['"']
}

/// The text of one scalar value.
pub open spec fn spec_atom_text(a: AtomM) -> Seq<char> {
    match a {
        AtomM::Null => "null"@,
        AtomM::NumTok(s) => s,
        AtomM::Text(s) => spec_quote(s),
        AtomM::Truth(b) => if b {
            "true"@
        } else {
            "false"@
        },
    }
}

proof fn lemma_escape_push(s: Seq<char>, c: char)
    ensures
        spec_escape(s.push(c)) == spec_escape(s) + spec_escape_char(c),
    decreases s.len(),
{
    if s.len() == 0 {
        assert(s.push(c)[0] == c);
        assert(s.push(c).skip(1) =~= Seq::<char>::empty());
        assert(spec_escape(s.push(c)) == spec_escape_char(c) + spec_escape(
            Seq::<char>::empty(),
        ));
        assert(spec_escape_char(c) + Seq::<char>::empty() =~= Seq::<char>::empty()
            + spec_escape_char(c));
    } else {
        assert(s.push(c)[0] == s[0]);
        assert(s.push(c).skip(1) =~= s.skip(1).push(c));
        lemma_escape_push(s.skip(1), c);
        assert(spec_escape_char(s[0]) + (spec_escape(s.skip(1)) + spec_escape_char(c))
            =~= (spec_escape_char(s[0]) + spec_escape(s.skip(1))) + spec_escape_char(c));
    }
}

fn hex_char(d: u8) -> (c: char)
    requires
        d < 16,
    ensures
        c == hex_digit(d as nat),
{
    match d {
        0 => '0',
        1 => '1',
        2 => '2',
        3 => '3',
        4 => '4',
        5 => '5',
        6 => '6',
        7 => '7',
        8 => '8',
        9 => '9',
        10 => 'a',
        11 => 'b',
        12 => 'c',
        13 => 'd',
        14 => 'e',
        _ => 'f',
    }
}

/// Appends the escaped body of `s`.
fn escape_into(out: &mut String, s: &str)
    ensures
        final(out)@ == old(out)@ + spec_escape(s@),
{
    let n = s.unicode_len();
    let mut i: usize = 0;
    while i < n
        invariant
            i <= n,
            n == s@.len(),
            out@ == old(out)@ + spec_escape(s@.take(i as int)),
        decreases n - i,
    {
        let c = s.get_char(i);
        let ghost pre = out@;
        if c == '"' {
            push_char(out, '\\');
            push_char(out, '"');
            proof {
                assert(out@ =~= pre + spec_escape_char(c));
            }
        } else if c == '\\' {
            push_char(out, '\\');
            push_char(out, '\\');
            proof {
                assert(out@ =~= pre + spec_escape_char(c));
            }
        } else if (c as u32) < 32 {
            let code: u32 = c as u32;
            push_char(out, '\\');
            push_char(out, 'u');
            push_char(out, '0');
            push_char(out, '0');
            push_char(out, hex_char((code / 16) as u8));
            push_char(out, hex_char((code % 16) as u8));
            proof {
                assert(out@ =~= pre + spec_escape_char(c));
            }
        } else {
            push_char(out, c);
            proof {
                assert(out@ =~= pre + spec_escape_char(c));
            }
        }
        proof {
            lemma_escape_push(s@.take(i as int), s@[i as int]);
            assert(s@.take(i + 1) =~= s@.take(i as int).push(s@[i as int]));
            assert(out@ =~= old(out)@ + spec_escape(s@.take(i + 1)));
        }
        i = i + 1;
    }
    proof {
        assert(s@.take(n as int) =~= s@);
    }
}

/// The quoted, escaped JSON form of a string.
fn quoted(s: &str) -> (r: String)
    ensures
        r@ == spec_quote(s@),
{
    let mut out = String::new();
    push_char(&mut out, '"');
    proof {
        assert(out@ =~= seq!['"']);
    }
    escape_into(&mut out, s);
    push_char(&mut out, '"');
    proof {
        assert(out@ =~= spec_quote(s@));
    }
    out
}

/// The text of one scalar value.
fn atom_text(a: &Atom) -> (r: String)
    ensures
        r@ == spec_atom_text(a@),
{
    match a {
        Atom::Null => "null".to_owned(),
        Atom::NumTok(s) => s.clone(),
        Atom::Text(s) => quoted(s.as_str()),
        Atom::Truth(b) => if *b {
            "true".to_owned()
        } else {
            "false".to_owned()
        },
    }
}

/// The text of one property object, keys in alphabetical order.
pub open spec fn spec_props_text(p: RawPropsM) -> Seq<char> {
    "{\"atom_stereo_count\":"@ + spec_atom_text(p.atom_stereo_count)
        + ",\"bond_stereo_count\":"@ + spec_atom_text(p.bond_stereo_count)
        + ",\"canonical_smiles\":"@ + spec_atom_text(p.canonical_smiles)
        + ",\"charge\":"@ + spec_atom_text(p.charge)
        + ",\"cid\":"@ + spec_atom_text(p.cid)
        + ",\"complexity\":"@ + spec_atom_text(p.complexity)
        + ",\"conformer_count_3d\":"@ + spec_atom_text(p.conformer_count_3d)
        + ",\"conformer_model_rmsd_3d\":"@ + spec_atom_text(p.conformer_model_rmsd_3d)
        + ",\"covalent_unit_count\":"@ + spec_atom_text(p.covalent_unit_count)
        + ",\"defined_atom_stereo_count\":"@ + spec_atom_text(p.defined_atom_stereo_count)
        + ",\"defined_bond_stereo_count\":"@ + spec_atom_text(p.defined_bond_stereo_count)
        + ",\"effective_rotor_count_3d\":"@ + spec_atom_text(p.effective_rotor_count_3d)
        + ",\"exact_mass\":"@ + spec_atom_text(p.exact_mass)
        + ",\"feature_acceptor_count_3d\":"@ + spec_atom_text(p.feature_acceptor_count_3d)
        + ",\"feature_anion_count_3d\":"@ + spec_atom_text(p.feature_anion_count_3d)
        + ",\"feature_cation_count_3d\":"@ + spec_atom_text(p.feature_cation_count_3d)
        + ",\"feature_count_3d\":"@ + spec_atom_text(p.feature_count_3d)
        + ",\"feature_donor_count_3d\":"@ + spec_atom_text(p.feature_donor_count_3d)
        + ",\"feature_hydrophobe_count_3d\":"@ + spec_atom_text(p.feature_hydrophobe_count_3d)
        + ",\"feature_ring_count_3d\":"@ + spec_atom_text(p.feature_ring_count_3d)
        + ",\"fingerprint_2d\":"@ + spec_atom_text(p.fingerprint_2d)
        + ",\"hbond_acceptor_count\":"@ + spec_atom_text(p.hbond_acceptor_count)
        + ",\"hbond_donor_count\":"@ + spec_atom_text(p.hbond_donor_count)
        + ",\"heavy_atom_count\":"@ + spec_atom_text(p.heavy_atom_count)
        + ",\"inchi\":"@ + spec_atom_text(p.inchi)
        + ",\"inchi_key\":"@ + spec_atom_text(p.inchi_key)
        + ",\"isomeric_smiles\":"@ + spec_atom_text(p.isomeric_smiles)
        + ",\"isotope_atom_count\":"@ + spec_atom_text(p.isotope_atom_count)
        + ",\"iupac_name\":"@ + spec_atom_text(p.iupac_name)
        + ",\"molecular_formula\":"@ + spec_atom_text(p.molecular_formula)
        + ",\"molecular_weight\":"@ + spec_atom_text(p.molecular_weight)
        + ",\"monoisotopic_mass\":"@ + spec_atom_text(p.monoisotopic_mass)
        + ",\"rotatable_bond_count\":"@ + spec_atom_text(p.rotatable_bond_count)
        + ",\"title\":"@ + spec_atom_text(p.title)
        + ",\"tpsa\":"@ + spec_atom_text(p.tpsa)
        + ",\"undefined_atom_stereo_count\":"@ + spec_atom_text(p.undefined_atom_stereo_count)
        + ",\"undefined_bond_stereo_count\":"@ + spec_atom_text(p.undefined_bond_stereo_count)
        + ",\"volume_3d\":"@ + spec_atom_text(p.volume_3d)
        + ",\"x_steric_quadrupole_3d\":"@ + spec_atom_text(p.x_steric_quadrupole_3d)
        + ",\"xlogp\":"@ + spec_atom_text(p.xlogp)
        + ",\"y_steric_quadrupole_3d\":"@ + spec_atom_text(p.y_steric_quadrupole_3d)
        + ",\"z_steric_quadrupole_3d\":"@ + spec_atom_text(p.z_steric_quadrupole_3d)
        + "}"@
}

/// Prints one property object.
fn props_text(p: &RawProps) -> (r: String)
    ensures
        r@ == spec_props_text(p@),
{
    let mut out = String::new();
    out.append("{\"atom_stereo_count\":");
    let t_atom_stereo_count = atom_text(&p.atom_stereo_count);
    out.append(t_atom_stereo_count.as_str());
    out.append(",\"bond_stereo_count\":");
    let t_bond_stereo_count = atom_text(&p.bond_stereo_count);
    out.append(t_bond_stereo_count.as_str());
    out.append(",\"canonical_smiles\":");
    let t_canonical_smiles = atom_text(&p.canonical_smiles);
    out.append(t_canonical_smiles.as_str());
    out.append(",\"charge\":");
    let t_charge = atom_text(&p.charge);
    out.append(t_charge.as_str());
    out.append(",\"cid\":");
    let t_cid = atom_text(&p.cid);
    out.append(t_cid.as_str());
    out.append(",\"complexity\":");
    let t_complexity = atom_text(&p.complexity);
    out.append(t_complexity.as_str());
    out.append(",\"conformer_count_3d\":");
    let t_conformer_count_3d = atom_text(&p.conformer_count_3d);
    out.append(t_conformer_count_3d.as_str());
    out.append(",\"conformer_model_rmsd_3d\":");
    let t_conformer_model_rmsd_3d = atom_text(&p.conformer_model_rmsd_3d);
    out.append(t_conformer_model_rmsd_3d.as_str());
    out.append(",\"covalent_unit_count\":");
    let t_covalent_unit_count = atom_text(&p.covalent_unit_count);
    out.append(t_covalent_unit_count.as_str());
    out.append(",\"defined_atom_stereo_count\":");
    let t_defined_atom_stereo_count = atom_text(&p.defined_atom_stereo_count);
    out.append(t_defined_atom_stereo_count.as_str());
    out.append(",\"defined_bond_stereo_count\":");
    let t_defined_bond_stereo_count = atom_text(&p.defined_bond_stereo_count);
    out.append(t_defined_bond_stereo_count.as_str());
    out.append(",\"effective_rotor_count_3d\":");
    let t_effective_rotor_count_3d = atom_text(&p.effective_rotor_count_3d);
    out.append(t_effective_rotor_count_3d.as_str());
    out.append(",\"exact_mass\":");
    let t_exact_mass = atom_text(&p.exact_mass);
    out.append(t_exact_mass.as_str());
    out.append(",\"feature_acceptor_count_3d\":");
    let t_feature_acceptor_count_3d = atom_text(&p.feature_acceptor_count_3d);
    out.append(t_feature_acceptor_count_3d.as_str());
    out.append(",\"feature_anion_count_3d\":");
    let t_feature_anion_count_3d = atom_text(&p.feature_anion_count_3d);
    out.append(t_feature_anion_count_3d.as_str());
    out.append(",\"feature_cation_count_3d\":");
    let t_feature_cation_count_3d = atom_text(&p.feature_cation_count_3d);
    out.append(t_feature_cation_count_3d.as_str());
    out.append(",\"feature_count_3d\":");
    let t_feature_count_3d = atom_text(&p.feature_count_3d);
    out.append(t_feature_count_3d.as_str());
    out.append(",\"feature_donor_count_3d\":");
    let t_feature_donor_count_3d = atom_text(&p.feature_donor_count_3d);
    out.append(t_feature_donor_count_3d.as_str());
    out.append(",\"feature_hydrophobe_count_3d\":");
    let t_feature_hydrophobe_count_3d = atom_text(&p.feature_hydrophobe_count_3d);
    out.append(t_feature_hydrophobe_count_3d.as_str());
    out.append(",\"feature_ring_count_3d\":");
    let t_feature_ring_count_3d = atom_text(&p.feature_ring_count_3d);
    out.append(t_feature_ring_count_3d.as_str());
    out.append(",\"fingerprint_2d\":");
    let t_fingerprint_2d = atom_text(&p.fingerprint_2d);
    out.append(t_fingerprint_2d.as_str());
    out.append(",\"hbond_acceptor_count\":");
    let t_hbond_acceptor_count = atom_text(&p.hbond_acceptor_count);
    out.append(t_hbond_acceptor_count.as_str());
    out.append(",\"hbond_donor_count\":");
    let t_hbond_donor_count = atom_text(&p.hbond_donor_count);
    out.append(t_hbond_donor_count.as_str());
    out.append(",\"heavy_atom_count\":");
    let t_heavy_atom_count = atom_text(&p.heavy_atom_count);
    out.append(t_heavy_atom_count.as_str());
    out.append(",\"inchi\":");
    let t_inchi = atom_text(&p.inchi);
    out.append(t_inchi.as_str());
    out.append(",\"inchi_key\":");
    let t_inchi_key = atom_text(&p.inchi_key);
    out.append(t_inchi_key.as_str());
    out.append(",\"isomeric_smiles\":");
    let t_isomeric_smiles = atom_text(&p.isomeric_smiles);
    out.append(t_isomeric_smiles.as_str());
    out.append(",\"isotope_atom_count\":");
    let t_isotope_atom_count = atom_text(&p.isotope_atom_count);
    out.append(t_isotope_atom_count.as_str());
    out.append(",\"iupac_name\":");
    let t_iupac_name = atom_text(&p.iupac_name);
    out.append(t_iupac_name.as_str());
    out.append(",\"molecular_formula\":");
    let t_molecular_formula = atom_text(&p.molecular_formula);
    out.append(t_molecular_formula.as_str());
    out.append(",\"molecular_weight\":");
    let t_molecular_weight = atom_text(&p.molecular_weight);
    out.append(t_molecular_weight.as_str());
    out.append(",\"monoisotopic_mass\":");
    let t_monoisotopic_mass = atom_text(&p.monoisotopic_mass);
    out.append(t_monoisotopic_mass.as_str());
    out.append(",\"rotatable_bond_count\":");
    let t_rotatable_bond_count = atom_text(&p.rotatable_bond_count);
    out.append(t_rotatable_bond_count.as_str());
    out.append(",\"title\":");
    let t_title = atom_text(&p.title);
    out.append(t_title.as_str());
    out.append(",\"tpsa\":");
    let t_tpsa = atom_text(&p.tpsa);
    out.append(t_tpsa.as_str());
    out.append(",\"undefined_atom_stereo_count\":");
    let t_undefined_atom_stereo_count = atom_text(&p.undefined_atom_stereo_count);
    out.append(t_undefined_atom_stereo_count.as_str());
    out.append(",\"undefined_bond_stereo_count\":");
    let t_undefined_bond_stereo_count = atom_text(&p.undefined_bond_stereo_count);
    out.append(t_undefined_bond_stereo_count.as_str());
    out.append(",\"volume_3d\":");
    let t_volume_3d = atom_text(&p.volume_3d);
    out.append(t_volume_3d.as_str());
    out.append(",\"x_steric_quadrupole_3d\":");
    let t_x_steric_quadrupole_3d = atom_text(&p.x_steric_quadrupole_3d);
    out.append(t_x_steric_quadrupole_3d.as_str());
    out.append(",\"xlogp\":");
    let t_xlogp = atom_text(&p.xlogp);
    out.append(t_xlogp.as_str());
    out.append(",\"y_steric_quadrupole_3d\":");
    let t_y_steric_quadrupole_3d = atom_text(&p.y_steric_quadrupole_3d);
    out.append(t_y_steric_quadrupole_3d.as_str());
    out.append(",\"z_steric_quadrupole_3d\":");
    let t_z_steric_quadrupole_3d = atom_text(&p.z_steric_quadrupole_3d);
    out.append(t_z_steric_quadrupole_3d.as_str());
    out.append("}");
    proof {
        assert(Seq::<char>::empty() + "{\"atom_stereo_count\":"@
            =~= "{\"atom_stereo_count\":"@);
    }
    out
}

/// The text of one `cache` array element, keys in alphabetical order.
pub open spec fn spec_entry_text(e: EntryM) -> Seq<char> {
    "{\"identifier\":"@ + spec_quote(e.id) + ",\"namespace\":"@ + spec_quote(e.ns)
        + ",\"properties\":"@ + spec_props_text(e.props) + "}"@
}

/// Prints one array element.
fn entry_text(e: &JsonEntry) -> (r: String)
    ensures
        r@ == spec_entry_text(e@),
{
    let mut out = String::new();
    out.append("{\"identifier\":");
    let qid = quoted(e.identifier.as_str());
    out.append(qid.as_str());
    out.append(",\"namespace\":");
    let qns = quoted(e.namespace.as_str());
    out.append(qns.as_str());
    out.append(",\"properties\":");
    let ps = props_text(&e.props);
    out.append(ps.as_str());
    out.append("}");
    proof {
        assert(Seq::<char>::empty() + "{\"identifier\":"@ =~= "{\"identifier\":"@);
    }
    out
}

/// The comma-joined text of the array elements.
pub open spec fn spec_entries_text(es: Seq<EntryM>) -> Seq<char>
    decreases es.len(),
{
    if es.len() == 0 {
        Seq::<char>::empty()
    } else if es.len() == 1 {
        spec_entry_text(es[0])
    } else {
        spec_entries_text(es.drop_last()) + ","@ + spec_entry_text(es.last())
    }
}

/// The text of the whole document.
pub open spec fn spec_doc_text(es: Seq<EntryM>) -> Seq<char> {
    "{\"cache\":["@ + spec_entries_text(es) + "]}"@
}

impl JsonDoc {
    /// Renders the document as one line of JSON text.
    pub fn to_text(&self) -> (r: String)
        ensures
            r@ == spec_doc_text(self@),
    {
        let n = self.entries.len();
        proof {
            assert(self@.len() == self.entries@.len());
        }
        let mut body = String::new();
        let mut i: usize = 0;
        while i < n
            invariant
                i <= n,
                n == self.entries@.len(),
                self@.len() == n,
                self@ == self.entries@.map_values(|e: JsonEntry| e@),
                body@ == spec_entries_text(self@.take(i as int)),
            decreases n - i,
        {
            let ghost pre = body@;
            if i > 0 {
                body.append(",");
            }
            let et = entry_text(&self.entries[i]);
            body.append(et.as_str());
            proof {
                assert(self@[i as int] == self.entries@[i as int]@);
                assert(self@.take(i + 1).drop_last() =~= self@.take(i as int));
                assert(self@.take(i + 1).last() == self@[i as int]);
                if i == 0 {
                    assert(self@.take(1).len() == 1);
                    assert(self@.take(1)[0] == self@[0]);
                    assert(body@ =~= spec_entry_text(self@[0]));
                } else {
                    assert(body@ =~= spec_entries_text(self@.take(i as int)) + ","@
                        + spec_entry_text(self@[i as int]));
                }
                assert(body@ == spec_entries_text(self@.take(i + 1)));
            }
            i = i + 1;
        }
        proof {
            assert(self@.take(n as int) =~= self@);
        }
        let mut out = String::new();
        out.append("{\"cache\":[");
        out.append(body.as_str());
        out.append("]}");
        proof {
            assert(Seq::<char>::empty() + "{\"cache\":["@ =~= "{\"cache\":["@);
        }
        out
    }
}

} // verus!
