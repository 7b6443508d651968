//! Materials as a scene description names them: a kind, by its name, and the
//! properties that the kind asks for.

use vstd::prelude::*;
use crate::colour::Colour;
use crate::material::{Diffuse, Glass, Material, Metal};
use crate::scalar::Scalar;

verus! {

/// The kinds of material that a description can name.
#[derive(Clone, Copy, Debug, PartialEq, Eq, Structural)]
pub enum MaterialKind {
    Diffuse,
    Metal,
    Glass,
}

/// Why a description is not a material.
#[derive(Clone, Copy, Debug, PartialEq, Eq, Structural)]
pub enum ConfigError {
    /// The kind is none of `diffuse`, `metal` and `glass`.
    UnknownMaterial,
    /// A diffuse or metal surface without a colour.
    MissingColour,
    /// A metal surface without a fuzz.
    MissingFuzz,
    /// Glass without a refractive index.
    MissingRefractiveIndex,
}

/// A letter of the basic Latin alphabet in lower case, any other character
/// as it is.
pub open spec fn lower(c: char) -> char {
    if c == 'A' {
        'a'
    } else if c == 'B' {
        'b'
    } else if c == 'C' {
        'c'
    } else if c == 'D' {
        'd'
    } else if c == 'E' {
        'e'
    } else if c == 'F' {
        'f'
    } else if c == 'G' {
        'g'
    } else if c == 'H' {
        'h'
    } else if c == 'I' {
        'i'
    } else if c == 'J' {
        'j'
    } else if c == 'K' {
        'k'
    } else if c == 'L' {
        'l'
    } else if c == 'M' {
        'm'
    } else if c == 'N' {
        'n'
    } else if c == 'O' {
        'o'
    } else if c == 'P' {
        'p'
    } else if c == 'Q' {
        'q'
    } else if c == 'R' {
        'r'
    } else if c == 'S' {
        's'
    } else if c == 'T' {
        't'
    } else if c == 'U' {
        'u'
    } else if c == 'V' {
        'v'
    } else if c == 'W' {
        'w'
    } else if c == 'X' {
        'x'
    } else if c == 'Y' {
        'y'
    } else if c == 'Z' {
        'z'
    } else {
        c
    }
}

/// `name` is `word` but for the case of its letters.
pub open spec fn spells(name: Seq<char>, word: Seq<char>) -> bool {
    &&& name.len() == word.len()
    &&& forall|i: int| 0 <= i < name.len() ==> lower(#[trigger] name[i]) == word[i]
}

pub open spec fn diffuse_word() -> Seq<char> {
    seq!['d', 'i', 'f', 'f', 'u', 's', 'e']
}

pub open spec fn metal_word() -> Seq<char> {
    seq!['m', 'e', 't', 'a', 'l']
}

pub open spec fn glass_word() -> Seq<char> {
    seq!['g', 'l', 'a', 's', 's']
}

impl MaterialKind {
    /// The kind that `name` names: `diffuse`, `metal` or `glass`, in
    /// whatever case.
    pub open spec fn spec_parse(name: Seq<char>) -> Option<MaterialKind> {
        if spells(name, diffuse_word()) {
            Some(MaterialKind::Diffuse)
        } else if spells(name, metal_word()) {
            Some(MaterialKind::Metal)
        } else if spells(name, glass_word()) {
            Some(MaterialKind::Glass)
        } else {
            None
        }
    }

    pub fn parse(name: &str) -> (kind: Option<MaterialKind>)
        ensures
            kind == MaterialKind::spec_parse(name@),
    {
        proof {
            reveal_strlit("diffuse");
            reveal_strlit("metal");
            reveal_strlit("glass");
            assert("diffuse"@ =~= diffuse_word());
            assert("metal"@ =~= metal_word());
            assert("glass"@ =~= glass_word());
        }
        if is_word(name, "diffuse") {
            Some(MaterialKind::Diffuse)
        } else if is_word(name, "metal") {
            Some(MaterialKind::Metal)
        } else if is_word(name, "glass") {
            Some(MaterialKind::Glass)
        } else {
            None
        }
    }
}

fn to_lower(c: char) -> (l: char)
    ensures
        l == lower(c),
{
    match c {
        'A' => 'a',
        'B' => 'b',
        'C' => 'c',
        'D' => 'd',
        'E' => 'e',
        'F' => 'f',
        'G' => 'g',
        'H' => 'h',
        'I' => 'i',
        'J' => 'j',
        'K' => 'k',
        'L' => 'l',
        'M' => 'm',
        'N' => 'n',
        'O' => 'o',
        'P' => 'p',
        'Q' => 'q',
        'R' => 'r',
        'S' => 's',
        'T' => 't',
        'U' => 'u',
        'V' => 'v',
        'W' => 'w',
        'X' => 'x',
        'Y' => 'y',
        'Z' => 'z',
        _ => c,
    }
}

fn is_word(name: &str, word: &str) -> (r: bool)
    ensures
        r == spells(name@, word@),
{
    let n: usize = word.unicode_len();
    if name.unicode_len() != n {
        return false;
    }
    let mut i: usize = 0;
    while i < n
        invariant
            i <= n,
            n == word@.len(),
            n == name@.len(),
            forall|j: int| 0 <= j < i ==> lower(#[trigger] name@[j]) == word@[j],
        decreases n - i,
    {
        if to_lower(name.get_char(i)) != word.get_char(i) {
            return false;
        }
        i = i + 1;
    }
    true
}

/// A material as a scene description gives it.
#[derive(Clone, Debug, PartialEq, Eq)]
pub struct MaterialProps {
    pub material_type: String,
    pub colour: Option<(Scalar, Scalar, Scalar)>,
    pub fuzz: Option<Scalar>,
    pub refractive_idx: Option<Scalar>,
}

impl MaterialProps {
    /// The material that the description stands for, or what keeps it from
    /// being one. The kind is looked at first, then the colour, then the
    /// fuzz. Properties that the kind does not ask for are not looked at.
    pub open spec fn spec_gen(self) -> Result<Material, ConfigError> {
        match MaterialKind::spec_parse(self.material_type@) {
            None => Err(ConfigError::UnknownMaterial),
            Some(MaterialKind::Diffuse) => match self.colour {
                None => Err(ConfigError::MissingColour),
                Some(c) => Ok(
                    Material::Diffuse(Diffuse { colour: Colour { r: c.0, g: c.1, b: c.2 } }),
                ),
            },
            Some(MaterialKind::Metal) => match self.colour {
                None => Err(ConfigError::MissingColour),
                Some(c) => match self.fuzz {
                    None => Err(ConfigError::MissingFuzz),
                    Some(fuzz) => Ok(
                        Material::Metal(Metal { colour: Colour { r: c.0, g: c.1, b: c.2 }, fuzz }),
                    ),
                },
            },
            Some(MaterialKind::Glass) => match self.refractive_idx {
                None => Err(ConfigError::MissingRefractiveIndex),
                Some(refractive_idx) => Ok(Material::Glass(Glass { refractive_idx })),
            },
        }
    }

    /// A description of the given kind. A kind that is not known is refused;
    /// whether the properties are those that the kind asks for is left to
    /// [`MaterialProps::gen`].
    pub fn new(
        material_type: String,
        colour: Option<(Scalar, Scalar, Scalar)>,
        fuzz: Option<Scalar>,
        refractive_idx: Option<Scalar>,
    ) -> (props: Result<MaterialProps, ConfigError>)
        ensures
            MaterialKind::spec_parse(material_type@) is None ==> props == Err::<
                MaterialProps,
                ConfigError,
            >(ConfigError::UnknownMaterial),
            MaterialKind::spec_parse(material_type@) is Some ==> props == Ok::<
                MaterialProps,
                ConfigError,
            >(MaterialProps { material_type, colour, fuzz, refractive_idx }),
    {
        if MaterialKind::parse(material_type.as_str()).is_none() {
            return Err(ConfigError::UnknownMaterial);
        }
        Ok(MaterialProps { material_type, colour, fuzz, refractive_idx })
    }

    /// The material that the description stands for.
    pub fn gen(&self) -> (material: Result<Material, ConfigError>)
        ensures
            material == self.spec_gen(),
    {
        match MaterialKind::parse(self.material_type.as_str()) {
            None => Err(ConfigError::UnknownMaterial),
            Some(MaterialKind::Diffuse) => match self.colour {
                None => Err(ConfigError::MissingColour),
                Some(c) => Ok(Diffuse::new(Colour::new(c.0, c.1, c.2))),
            },
            Some(MaterialKind::Metal) => match self.colour {
                None => Err(ConfigError::MissingColour),
                Some(c) => match self.fuzz {
                    None => Err(ConfigError::MissingFuzz),
                    Some(fuzz) => Ok(Metal::new(Colour::new(c.0, c.1, c.2), fuzz)),
                },
            },
            Some(MaterialKind::Glass) => match self.refractive_idx {
                None => Err(ConfigError::MissingRefractiveIndex),
                Some(refractive_idx) => Ok(Glass::new(refractive_idx)),
            },
        }
    }
}

} // verus!
