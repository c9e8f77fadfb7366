//! Registered identities and their statistics. The snapshot builder joins
//! participant identifiers against this directory to name the two sides,
//! and registration and login are plain lookups over it.

use vstd::prelude::*;

verus! {

/// A registered identity.
#[derive(Debug)]
pub struct Usuario {
    pub id_usuario: i32,
    pub nombre_usuario: String,
    pub correo: String,
    pub contrasena: String,
}

impl Clone for Usuario {
    fn clone(&self) -> (res: Self)
        ensures
            res == *self,
    {
        Usuario {
            id_usuario: self.id_usuario,
            nombre_usuario: self.nombre_usuario.clone(),
            correo: self.correo.clone(),
            contrasena: self.contrasena.clone(),
        }
    }
}

/// Credentials presented at login.
#[derive(Debug)]
pub struct LoginPayload {
    pub nombre_usuario: String,
    pub contrasena: String,
}

/// A registration request.
#[derive(Debug)]
pub struct RegistroPayload {
    pub nombre_usuario: String,
    pub correo: String,
    pub contrasena: String,
}

/// Cumulative per-participant statistics.
#[derive(Clone, Copy, PartialEq, Eq, Debug)]
pub struct Estadistica {
    pub id_usuario: i32,
    pub partidas_jugadas: Option<i32>,
    pub partidas_ganadas: Option<i32>,
    pub goles_a_favor: Option<i32>,
    pub goles_en_contra: Option<i32>,
}

/// Index of the first user row with this identifier.
pub open spec fn find_user(s: Seq<Usuario>, id: i32) -> Option<int>
    decreases s.len(),
{
    if s.len() == 0 {
        None
    } else if s[0].id_usuario == id {
        Some(0int)
    } else {
        match find_user(s.drop_first(), id) {
            Some(i) => Some(i + 1),
            None => None,
        }
    }
}

proof fn lemma_find_user_at(s: Seq<Usuario>, id: i32, k: int)
    requires
        0 <= k < s.len(),
        s[k].id_usuario == id,
        forall|j: int| 0 <= j < k ==> (#[trigger] s[j]).id_usuario != id,
    ensures
        find_user(s, id) == Some(k),
    decreases k,
{
    if k > 0 {
        lemma_find_user_at(s.drop_first(), id, k - 1);
    }
}

proof fn lemma_find_user_none(s: Seq<Usuario>, id: i32)
    requires
        forall|j: int| 0 <= j < s.len() ==> (#[trigger] s[j]).id_usuario != id,
    ensures
        find_user(s, id) is None,
    decreases s.len(),
{
    if s.len() > 0 {
        lemma_find_user_none(s.drop_first(), id);
    }
}

/// Index of the first user row matching these credentials.
pub open spec fn find_login(s: Seq<Usuario>, nombre: Seq<char>, contrasena: Seq<char>) -> Option<
    int,
>
    decreases s.len(),
{
    if s.len() == 0 {
        None
    } else if s[0].nombre_usuario@ == nombre && s[0].contrasena@ == contrasena {
        Some(0int)
    } else {
        match find_login(s.drop_first(), nombre, contrasena) {
            Some(i) => Some(i + 1),
            None => None,
        }
    }
}

proof fn lemma_find_login_at(s: Seq<Usuario>, nombre: Seq<char>, contrasena: Seq<char>, k: int)
    requires
        0 <= k < s.len(),
        s[k].nombre_usuario@ == nombre && s[k].contrasena@ == contrasena,
        forall|j: int|
            0 <= j < k ==> !((#[trigger] s[j]).nombre_usuario@ == nombre && s[j].contrasena@
                == contrasena),
    ensures
        find_login(s, nombre, contrasena) == Some(k),
    decreases k,
{
    if k > 0 {
        lemma_find_login_at(s.drop_first(), nombre, contrasena, k - 1);
    }
}

proof fn lemma_find_login_none(s: Seq<Usuario>, nombre: Seq<char>, contrasena: Seq<char>)
    requires
        forall|j: int|
            0 <= j < s.len() ==> !((#[trigger] s[j]).nombre_usuario@ == nombre && s[j].contrasena@
                == contrasena),
    ensures
        find_login(s, nombre, contrasena) is None,
    decreases s.len(),
{
    if s.len() > 0 {
        lemma_find_login_none(s.drop_first(), nombre, contrasena);
    }
}

/// The registered identities, with the next identifier to hand out.
#[derive(Debug)]
pub struct UserDirectory {
    pub usuarios: Vec<Usuario>,
    pub next_id: i32,
}

impl UserDirectory {
    /// Identifiers are positive, unique, and below the next one to assign.
    pub open spec fn wf(self) -> bool {
        &&& self.next_id >= 1
        &&& forall|i: int|
            0 <= i < self.usuarios@.len() ==> 0 < (#[trigger] self.usuarios@[i]).id_usuario
                < self.next_id
        &&& forall|i: int, j: int|
            0 <= i < j < self.usuarios@.len() ==> (#[trigger] self.usuarios@[i]).id_usuario
                != (#[trigger] self.usuarios@[j]).id_usuario
    }

    /// An empty directory.
    pub fn new() -> (r: Self)
        ensures
            r.wf(),
            r.usuarios@.len() == 0,
            r.next_id == 1,
    {
        UserDirectory { usuarios: Vec::new(), next_id: 1 }
    }

    /// Registers a new identity under a fresh identifier and returns it.
    pub fn post_registro(&mut self, payload: RegistroPayload) -> (id: i32)
        requires
            old(self).wf(),
            old(self).next_id < i32::MAX,
        ensures
            final(self).wf(),
            id == old(self).next_id,
            final(self).next_id == old(self).next_id + 1,
            final(self).usuarios@.len() == old(self).usuarios@.len() + 1,
            final(self).usuarios@.subrange(0, old(self).usuarios@.len() as int) == old(
                self,
            ).usuarios@,
            final(self).usuarios@.last().id_usuario == id,
            final(self).usuarios@.last().nombre_usuario@ == payload.nombre_usuario@,
            final(self).usuarios@.last().correo@ == payload.correo@,
            final(self).usuarios@.last().contrasena@ == payload.contrasena@,
    {
        let id = self.next_id;
        self.usuarios.push(
            Usuario {
                id_usuario: id,
                nombre_usuario: payload.nombre_usuario,
                correo: payload.correo,
                contrasena: payload.contrasena,
            },
        );
        self.next_id = self.next_id + 1;
        proof {
            assert(final(self).usuarios@.subrange(0, old(self).usuarios@.len() as int) =~= old(
                self,
            ).usuarios@);
        }
        id
    }

    /// Checks credentials: the first matching identity, or nothing.
    pub fn post_login(&self, payload: &LoginPayload) -> (r: Option<Usuario>)
        ensures
            match r {
                Some(u) => {
                    &&& find_login(
                        self.usuarios@,
                        payload.nombre_usuario@,
                        payload.contrasena@,
                    ) matches Some(k)
                    &&& u == self.usuarios@[find_login(
                        self.usuarios@,
                        payload.nombre_usuario@,
                        payload.contrasena@,
                    ).unwrap()]
                },
                None => find_login(self.usuarios@, payload.nombre_usuario@, payload.contrasena@)
                    is None,
            },
    {
        let mut i: usize = 0;
        while i < self.usuarios.len()
            invariant
                i <= self.usuarios.len(),
                forall|j: int|
                    0 <= j < i ==> !((#[trigger] self.usuarios@[j]).nombre_usuario@
                        == payload.nombre_usuario@ && self.usuarios@[j].contrasena@
                        == payload.contrasena@),
            decreases self.usuarios.len() - i,
        {
            if self.usuarios[i].nombre_usuario == payload.nombre_usuario
                && self.usuarios[i].contrasena == payload.contrasena {
                proof {
                    lemma_find_login_at(
                        self.usuarios@,
                        payload.nombre_usuario@,
                        payload.contrasena@,
                        i as int,
                    );
                }
                return Some(self.usuarios[i].clone());
            }
            i += 1;
        }
        proof {
            lemma_find_login_none(self.usuarios@, payload.nombre_usuario@, payload.contrasena@);
        }
        None
    }

    /// The display name of an identity, if it is registered.
    pub fn name_of(&self, id_usuario: i32) -> (r: Option<String>)
        ensures
            match r {
                Some(n) => {
                    &&& find_user(self.usuarios@, id_usuario) matches Some(k)
                    &&& n@ == self.usuarios@[find_user(self.usuarios@, id_usuario).unwrap()]
                        .nombre_usuario@
                },
                None => find_user(self.usuarios@, id_usuario) is None,
            },
    {
        let mut i: usize = 0;
        while i < self.usuarios.len()
            invariant
                i <= self.usuarios.len(),
                forall|j: int|
                    0 <= j < i ==> (#[trigger] self.usuarios@[j]).id_usuario != id_usuario,
            decreases self.usuarios.len() - i,
        {
            if self.usuarios[i].id_usuario == id_usuario {
                proof {
                    lemma_find_user_at(self.usuarios@, id_usuario, i as int);
                }
                return Some(self.usuarios[i].nombre_usuario.clone());
            }
            i += 1;
        }
        proof {
            lemma_find_user_none(self.usuarios@, id_usuario);
        }
        None
    }

    /// Every registered identity, in registration order.
    pub fn get_usuarios(&self) -> (r: &Vec<Usuario>)
        ensures
            r@ == self.usuarios@,
    {
        &self.usuarios
    }
}

/// The first statistics row of an identity, if any.
pub open spec fn find_estadistica(s: Seq<Estadistica>, id: i32) -> Option<int>
    decreases s.len(),
{
    if s.len() == 0 {
        None
    } else if s[0].id_usuario == id {
        Some(0int)
    } else {
        match find_estadistica(s.drop_first(), id) {
            Some(i) => Some(i + 1),
            None => None,
        }
    }
}

proof fn lemma_find_estadistica_at(s: Seq<Estadistica>, id: i32, k: int)
    requires
        0 <= k < s.len(),
        s[k].id_usuario == id,
        forall|j: int| 0 <= j < k ==> (#[trigger] s[j]).id_usuario != id,
    ensures
        find_estadistica(s, id) == Some(k),
    decreases k,
{
    if k > 0 {
        lemma_find_estadistica_at(s.drop_first(), id, k - 1);
    }
}

proof fn lemma_find_estadistica_none(s: Seq<Estadistica>, id: i32)
    requires
        forall|j: int| 0 <= j < s.len() ==> (#[trigger] s[j]).id_usuario != id,
    ensures
        find_estadistica(s, id) is None,
    decreases s.len(),
{
    if s.len() > 0 {
        lemma_find_estadistica_none(s.drop_first(), id);
    }
}

/// Looks an identity's statistics up, reporting nothing when none are on
/// record.
pub fn get_estadisticas(filas: &Vec<Estadistica>, id_usuario: i32) -> (r: Option<Estadistica>)
    ensures
        match r {
            Some(e) => {
                &&& find_estadistica(filas@, id_usuario) matches Some(k)
                &&& e == filas@[find_estadistica(filas@, id_usuario).unwrap()]
            },
            None => find_estadistica(filas@, id_usuario) is None,
        },
{
    let mut i: usize = 0;
    while i < filas.len()
        invariant
            i <= filas.len(),
            forall|j: int| 0 <= j < i ==> (#[trigger] filas@[j]).id_usuario != id_usuario,
        decreases filas.len() - i,
    {
        if filas[i].id_usuario == id_usuario {
            proof {
                lemma_find_estadistica_at(filas@, id_usuario, i as int);
            }
            return Some(filas[i]);
        }
        i += 1;
    }
    proof {
        lemma_find_estadistica_none(filas@, id_usuario);
    }
    None
}

} // verus!
