//! Element property storage: the two validated settings the bridge needs
//! before it may connect — the model (topic) name and the telemetry toggle.

use vstd::prelude::*;

verus! {

/// Plugin property value storage.
#[derive(Clone, Debug)]
pub struct Args {
    pub model: String,
    pub otlp: bool,
}

/// A typed property value, as the host's property mechanism delivers it.
#[derive(Clone, Debug)]
pub enum PropertyValue {
    Model(String),
    Otlp(bool),
}

impl Args {
    /// The model name a fresh element starts with: empty, i.e. unset.
    pub fn default_model() -> (m: String)
        ensures
            m@ == Seq::<char>::empty(),
    {
        String::new()
    }

    /// Telemetry is off unless a property turns it on.
    pub fn default_otlp() -> (b: bool)
        ensures
            b == false,
    {
        false
    }

    /// The stored model (topic) name.
    pub fn model(&self) -> (m: &String)
        ensures
            m@ == self.model@,
    {
        &self.model
    }

    /// Whether telemetry is enabled.
    pub fn otlp(&self) -> (b: bool)
        ensures
            b == self.otlp,
    {
        self.otlp
    }

    /// Reads one property by name.  The host only asks for the properties
    /// it registered, so an unknown name stays out by precondition.
    pub fn property(&self, name: &String) -> (v: PropertyValue)
        requires
            name@ == "model"@ || name@ == "otlp"@,
        ensures
            name@ == "model"@ ==> v == PropertyValue::Model(self.model),
            name@ == "otlp"@ ==> v == PropertyValue::Otlp(self.otlp),
    {
        proof {
            reveal_strlit("model");
            reveal_strlit("otlp");
            assert("model"@.len() == 5);
            assert("otlp"@.len() == 4);
        }
        let model_name = String::from_str("model");
        if *name == model_name {
            PropertyValue::Model(self.model.clone())
        } else {
            PropertyValue::Otlp(self.otlp)
        }
    }

    /// Writes one property by name.  The host checks the value's type
    /// upstream, so a name/value mismatch stays out by precondition.
    pub fn set_property(&mut self, name: &String, value: PropertyValue)
        requires
            name@ == "model"@ || name@ == "otlp"@,
            name@ == "model"@ ==> value is Model,
            name@ == "otlp"@ ==> value is Otlp,
        ensures
            value matches PropertyValue::Model(m) ==> (final(self).model == m && final(self).otlp
                == old(self).otlp),
            value matches PropertyValue::Otlp(b) ==> (final(self).otlp == b && final(self).model
                == old(self).model),
    {
        proof {
            reveal_strlit("model");
            reveal_strlit("otlp");
        }
        let model_name = String::from_str("model");
        if *name == model_name {
            match value {
                PropertyValue::Model(m) => {
                    self.model = m;
                },
                PropertyValue::Otlp(_) => vstd::pervasive::unreached(),
            }
        } else {
            match value {
                PropertyValue::Otlp(b) => {
                    self.otlp = b;
                },
                PropertyValue::Model(_) => vstd::pervasive::unreached(),
            }
        }
    }
}

impl Default for Args {
    fn default() -> (a: Args)
        ensures
            a.model@ == Seq::<char>::empty(),
            a.otlp == false,
    {
        Args { model: Args::default_model(), otlp: Args::default_otlp() }
    }
}

} // verus!
