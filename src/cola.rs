use vstd::prelude::*;

verus! {

/// What happens to a submission made while earlier ones are still waiting
/// or being sent.
#[derive(Clone, Copy, Debug, PartialEq, Eq, Structural)]
pub enum PoliticaEnvio {
    /// It waits its turn behind them.
    Encolar,
    /// It is refused.
    Rechazar,
}

/// The submissions waiting for the single worker that sends them, one at a
/// time and in the order they were made.
pub struct ColaEnvios<T> {
    politica: PoliticaEnvio,
    pendientes: Vec<T>,
    en_curso: bool,
}

impl<T> ColaEnvios<T> {
    /// The submissions not yet handed to the worker, oldest first.
    pub closed spec fn espera(self) -> Seq<T> {
        self.pendientes@
    }

    /// Whether the worker is sending one.
    pub closed spec fn ocupada(self) -> bool {
        self.en_curso
    }

    /// The policy the queue was made with.
    pub closed spec fn regla(self) -> PoliticaEnvio {
        self.politica
    }

    /// An empty, idle queue.
    pub fn new(politica: PoliticaEnvio) -> (r: ColaEnvios<T>)
        ensures
            r.espera().len() == 0,
            !r.ocupada(),
            r.regla() == politica,
    {
        ColaEnvios { politica, pendientes: Vec::new(), en_curso: false }
    }

    /// Offers a submission. Under `Encolar` it is always taken; under
    /// `Rechazar` only when nothing is waiting or being sent. Returns whether
    /// it was taken.
    pub fn enviar(&mut self, trabajo: T) -> (r: bool)
        ensures
            r == (old(self).regla() == PoliticaEnvio::Encolar || (!old(self).ocupada() && old(
                self,
            ).espera().len() == 0)),
            r ==> final(self).espera() == old(self).espera().push(trabajo),
            !r ==> final(self).espera() == old(self).espera(),
            final(self).ocupada() == old(self).ocupada(),
            final(self).regla() == old(self).regla(),
    {
        let libre = !self.en_curso && self.pendientes.len() == 0;
        if self.politica == PoliticaEnvio::Encolar || libre {
            self.pendientes.push(trabajo);
            true
        } else {
            false
        }
    }

    /// Hands the oldest waiting submission to the worker, if the worker is
    /// idle; the worker is then busy until `terminar`.
    pub fn siguiente(&mut self) -> (r: Option<T>)
        ensures
            !old(self).ocupada() && old(self).espera().len() > 0 ==> {
                &&& r == Some(old(self).espera()[0])
                &&& final(self).espera() == old(self).espera().drop_first()
                &&& final(self).ocupada()
            },
            old(self).ocupada() || old(self).espera().len() == 0 ==> {
                &&& r is None
                &&& final(self).espera() == old(self).espera()
                &&& final(self).ocupada() == old(self).ocupada()
            },
            final(self).regla() == old(self).regla(),
    {
        if !self.en_curso && self.pendientes.len() > 0 {
            let t = self.pendientes.remove(0);
            self.en_curso = true;
            assert(self.pendientes@ =~= old(self).pendientes@.drop_first());
            Some(t)
        } else {
            None
        }
    }

    /// The worker has finished the submission it was sending.
    pub fn terminar(&mut self)
        ensures
            !final(self).ocupada(),
            final(self).espera() == old(self).espera(),
            final(self).regla() == old(self).regla(),
    {
        self.en_curso = false;
    }
}

} // verus!
