use vstd::prelude::*;

verus! {

/// Why an operation of the transport failed. `F` is how the caller reports a failure of its own.
pub enum Error<F> {
    /// The ICE transport has not started yet.
    ErrICEConnectionNotStarted,
    /// The transport is not in the state `New`.
    ErrInvalidDTLSStart,
    /// The handshake selected no protection profile that SRTP sessions can be run with.
    ErrNoSRTPProtectionProfile,
    /// The peer sent no certificate.
    ErrNoRemoteCertificate,
    /// There is no DTLS connection.
    ErrDtlsTransportNotStarted,
    /// An error that is only a text.
    Message(String),
    /// An action of the caller failed.
    Outside(F),
}

/// [`Error`] with its text as a sequence.
pub enum ErrorModel<F> {
    ErrICEConnectionNotStarted,
    ErrInvalidDTLSStart,
    ErrNoSRTPProtectionProfile,
    ErrNoRemoteCertificate,
    ErrDtlsTransportNotStarted,
    Message(Seq<char>),
    Outside(F),
}

impl<F> View for Error<F> {
    type V = ErrorModel<F>;

    open spec fn view(&self) -> ErrorModel<F> {
        match *self {
            Error::ErrICEConnectionNotStarted => ErrorModel::ErrICEConnectionNotStarted,
            Error::ErrInvalidDTLSStart => ErrorModel::ErrInvalidDTLSStart,
            Error::ErrNoSRTPProtectionProfile => ErrorModel::ErrNoSRTPProtectionProfile,
            Error::ErrNoRemoteCertificate => ErrorModel::ErrNoRemoteCertificate,
            Error::ErrDtlsTransportNotStarted => ErrorModel::ErrDtlsTransportNotStarted,
            Error::Message(text) => ErrorModel::Message(text@),
            Error::Outside(failure) => ErrorModel::Outside(failure),
        }
    }
}

/// A result with its error as a model.
pub open spec fn result_model<F>(result: Result<(), Error<F>>) -> Result<(), ErrorModel<F>> {
    match result {
        Ok(_) => Ok(()),
        Err(error) => Err(error@),
    }
}

/// The contents of each string.
pub open spec fn texts(strings: Seq<String>) -> Seq<Seq<char>> {
    strings.map_values(|s: String| s@)
}

/// The lines, one after the other, with a line feed between two of them.
pub open spec fn joined(lines: Seq<Seq<char>>) -> Seq<char>
    decreases lines.len(),
{
    if lines.len() == 0 {
        Seq::empty()
    } else if lines.len() == 1 {
        lines[0]
    } else {
        joined(lines.drop_last()) + seq!['\n'] + lines.last()
    }
}

/// No error for no texts; otherwise one error that holds them all, one on each line.
pub open spec fn flattened<F>(errors: Seq<Seq<char>>) -> Result<(), ErrorModel<F>> {
    if errors.len() == 0 {
        Ok(())
    } else {
        Err(ErrorModel::Message(joined(errors)))
    }
}

/// Makes one result of the texts of all errors.
pub fn flatten_errs<F>(errs: &Vec<String>) -> (result: Result<(), Error<F>>)
    ensures
        result_model(result) == flattened::<F>(texts(errs@)),
{
    if errs.len() == 0 {
        return Ok(());
    }
    let mut text: String = errs[0].clone();
    let mut next: usize = 1;
    proof {
        assert(texts(errs@).take(1) =~= seq![errs@[0]@]);
        reveal_strlit("\n");
        assert("\n"@ =~= seq!['\n']);
    }
    while next < errs.len()
        invariant
            1 <= next <= errs.len(),
            text@ == joined(texts(errs@).take(next as int)),
            "\n"@ == seq!['\n'],
        decreases errs.len() - next,
    {
        proof {
            let prefix = texts(errs@).take(next + 1);
            assert(prefix.drop_last() =~= texts(errs@).take(next as int));
            assert(prefix.last() == errs@[next as int]@);
        }
        text.append("\n");
        text.append(errs[next].as_str());
        next = next + 1;
    }
    proof {
        assert(texts(errs@).take(next as int) =~= texts(errs@));
    }
    Err(Error::Message(text))
}

} // verus!
