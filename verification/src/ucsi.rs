//! USB Type-C connectors: single commands, and the snapshot that takes three of them.
use crate::acpi::{request_of, Acpi};
use crate::argument::{
    method_argument_views, AcpiMethodArgument, AcpiMethodArgumentV1, MethodArgumentView,
};
use crate::bytes::copied;
use crate::device::DeviceReply;
use crate::error::{AcpiParseError, Error, MailboxError};
use crate::output::{AcpiEvalOutputBufferV1, OutputView};
use crate::value::AcpiArgumentType;
use vstd::prelude::*;

verus! {

/// The number of bytes of a command.
pub const CONTROL_LEN: usize = 8;

/// The commands of a snapshot.
#[derive(Debug, Clone, Copy, PartialEq, Eq, Structural)]
pub enum CommandType {
    GetCapability,
    GetConnectorCapability,
    GetConnectorStatus,
}

/// What is known of the controller and of one connector.
#[derive(Debug)]
pub struct UcsiSnapshot<V, C, K, S> {
    pub version: V,
    pub capability: C,
    pub connector_capability: K,
    pub connector_status: S,
}

/// A snapshot that waits for the capabilities of the controller.
#[derive(Debug)]
pub struct SnapshotStart {
    pub connector: u8,
}

/// A snapshot that waits for the capabilities of the connector.
#[derive(Debug)]
pub struct WithCapability<V, C> {
    pub connector: u8,
    pub version: V,
    pub capability: C,
}

/// A snapshot that waits for the status of the connector.
#[derive(Debug)]
pub struct WithConnectorCapability<V, C, K> {
    pub connector: u8,
    pub version: V,
    pub capability: C,
    pub connector_capability: K,
}

/// The mailbox that the output holds: the data of its one buffer.
pub open spec fn mailbox_of(output: OutputView) -> Result<Seq<u8>, Error> {
    if output.count != 1 || output.arguments.len() == 0 {
        Err(Error::UnexpectedResponse)
    } else if output.arguments[0].type_ != AcpiArgumentType::Buffer.number() {
        Err(Error::UnexpectedArgumentType(output.arguments[0].type_))
    } else {
        Ok(output.arguments[0].data)
    }
}

/// The mailbox that the reply holds.
pub open spec fn mailbox_reply(reply: DeviceReply) -> Result<Seq<u8>, Error> {
    match reply.evaluation() {
        Ok(output) => mailbox_of(output),
        Err(e) => Err(Error::Parse(e)),
    }
}

impl Acpi {
    /// The bytes that issue one command.
    pub fn ucsi_command_request(&self, control: [u8; CONTROL_LEN]) -> (r: Result<Vec<u8>, AcpiParseError>)
        ensures
            r matches Ok(buf) && request_of(
                "\\_SB.ECT0.USND"@,
                seq![MethodArgumentView::Buffer(control@)],
            ) == Ok::<Seq<u8>, AcpiParseError>(buf@),
    {
        let mut args: Vec<AcpiMethodArgument> = Vec::new();
        args.push(AcpiMethodArgument::Buffer(copied(control.as_slice())));
        assert(method_argument_views(args@) =~= seq![MethodArgumentView::Buffer(control@)]);
        self.request("\\_SB.ECT0.USND", args)
    }

    /// Reads the mailbox that answers a command from the reply.
    pub fn ucsi_command(&self, reply: DeviceReply) -> (r: Result<Vec<u8>, Error>)
        ensures
            match mailbox_reply(reply) {
                Ok(mailbox) => r matches Ok(bytes) && bytes@ == mailbox,
                Err(e) => r == Err::<Vec<u8>, Error>(e),
            },
    {
        let output: AcpiEvalOutputBufferV1 = match self.evaluate(reply) {
            Ok(output) => output,
            Err(e) => return Err(Error::Parse(e)),
        };
        if output.count != 1 {
            return Err(Error::UnexpectedResponse);
        }
        let arg: &AcpiMethodArgumentV1 = match output.arg(0) {
            Ok(arg) => arg,
            Err(e) => return Err(e),
        };
        assert(output@.arguments[0] == arg@);
        if arg.type_ != AcpiArgumentType::Buffer.to_u16() {
            return Err(Error::UnexpectedArgumentType(arg.type_));
        }
        Ok(copied(arg.data.as_slice()))
    }

    /// Begins a snapshot of one connector.
    pub fn get_snapshot(&self, connector: u8) -> (start: SnapshotStart)
        ensures
            start.connector == connector,
    {
        SnapshotStart { connector }
    }
}

/// What was decoded from the first answer of a snapshot, which carries both.
#[derive(Debug)]
pub struct DecodedCapability<V, C> {
    pub version: Result<V, MailboxError>,
    pub capability: Result<C, MailboxError>,
}

/// What was decoded from an answer, or why there is none: the command failed, or the mailbox
/// could not be decoded.
pub open spec fn answered<T>(answer: Result<Result<T, MailboxError>, Error>) -> Result<T, Error> {
    match answer {
        Err(e) => Err(e),
        Ok(Err(e)) => Err(Error::Ucsi(e)),
        Ok(Ok(value)) => Ok(value),
    }
}

/// The snapshot after its first answer. A version that could not be decoded is reported before
/// capabilities that could not.
pub open spec fn after_capability<V, C>(
    start: SnapshotStart,
    answer: Result<DecodedCapability<V, C>, Error>,
) -> Result<WithCapability<V, C>, Error> {
    match answer {
        Err(e) => Err(e),
        Ok(decoded) => match decoded.version {
            Err(e) => Err(Error::Ucsi(e)),
            Ok(version) => match decoded.capability {
                Err(e) => Err(Error::Ucsi(e)),
                Ok(capability) => Ok(
                    WithCapability { connector: start.connector, version, capability },
                ),
            },
        },
    }
}

/// The snapshot after its second answer.
pub open spec fn after_connector_capability<V, C, K>(
    known: WithCapability<V, C>,
    answer: Result<Result<K, MailboxError>, Error>,
) -> Result<WithConnectorCapability<V, C, K>, Error> {
    match answered(answer) {
        Err(e) => Err(e),
        Ok(connector_capability) => Ok(
            WithConnectorCapability {
                connector: known.connector,
                version: known.version,
                capability: known.capability,
                connector_capability,
            },
        ),
    }
}

/// The snapshot after its last answer.
pub open spec fn after_connector_status<V, C, K, S>(
    known: WithConnectorCapability<V, C, K>,
    answer: Result<Result<S, MailboxError>, Error>,
) -> Result<UcsiSnapshot<V, C, K, S>, Error> {
    match answered(answer) {
        Err(e) => Err(e),
        Ok(connector_status) => Ok(
            UcsiSnapshot {
                version: known.version,
                capability: known.capability,
                connector_capability: known.connector_capability,
                connector_status,
            },
        ),
    }
}

impl SnapshotStart {
    /// The command to issue, and the connector that it is for: the controller's own capabilities
    /// are asked for under connector zero.
    pub fn command(&self) -> (r: (CommandType, u8))
        ensures
            r == (CommandType::GetCapability, 0u8),
    {
        (CommandType::GetCapability, 0)
    }

    /// Takes what was decoded from the answer to the command.
    pub fn decoded<V, C>(self, answer: Result<DecodedCapability<V, C>, Error>) -> (r: Result<
        WithCapability<V, C>,
        Error,
    >)
        ensures
            r == after_capability(self, answer),
    {
        let decoded: DecodedCapability<V, C> = match answer {
            Ok(decoded) => decoded,
            Err(e) => return Err(e),
        };
        match decoded.version {
            Err(e) => Err(Error::Ucsi(e)),
            Ok(version) => match decoded.capability {
                Err(e) => Err(Error::Ucsi(e)),
                Ok(capability) => Ok(
                    WithCapability { connector: self.connector, version, capability },
                ),
            },
        }
    }
}

impl<V, C> WithCapability<V, C> {
    /// The command to issue, and the connector that it is for.
    pub fn command(&self) -> (r: (CommandType, u8))
        ensures
            r == (CommandType::GetConnectorCapability, self.connector),
    {
        (CommandType::GetConnectorCapability, self.connector)
    }

    /// Takes what was decoded from the answer to the command.
    pub fn decoded<K>(self, answer: Result<Result<K, MailboxError>, Error>) -> (r: Result<
        WithConnectorCapability<V, C, K>,
        Error,
    >)
        ensures
            r == after_connector_capability(self, answer),
    {
        match answer {
            Err(e) => Err(e),
            Ok(Err(e)) => Err(Error::Ucsi(e)),
            Ok(Ok(connector_capability)) => Ok(
                WithConnectorCapability {
                    connector: self.connector,
                    version: self.version,
                    capability: self.capability,
                    connector_capability,
                },
            ),
        }
    }
}

impl<V, C, K> WithConnectorCapability<V, C, K> {
    /// The command to issue, and the connector that it is for.
    pub fn command(&self) -> (r: (CommandType, u8))
        ensures
            r == (CommandType::GetConnectorStatus, self.connector),
    {
        (CommandType::GetConnectorStatus, self.connector)
    }

    /// Takes what was decoded from the answer to the command.
    pub fn decoded<S>(self, answer: Result<Result<S, MailboxError>, Error>) -> (r: Result<
        UcsiSnapshot<V, C, K, S>,
        Error,
    >)
        ensures
            r == after_connector_status(self, answer),
    {
        match answer {
            Err(e) => Err(e),
            Ok(Err(e)) => Err(Error::Ucsi(e)),
            Ok(Ok(connector_status)) => Ok(
                UcsiSnapshot {
                    version: self.version,
                    capability: self.capability,
                    connector_capability: self.connector_capability,
                    connector_status,
                },
            ),
        }
    }
}

/// The snapshot of a connector whose three commands are answered like this.
pub open spec fn snapshot_of<V, C, K, S>(
    connector: u8,
    first: Result<DecodedCapability<V, C>, Error>,
    second: Result<Result<K, MailboxError>, Error>,
    third: Result<Result<S, MailboxError>, Error>,
) -> Result<UcsiSnapshot<V, C, K, S>, Error> {
    match after_capability(SnapshotStart { connector }, first) {
        Err(e) => Err(e),
        Ok(known) => match after_connector_capability(known, second) {
            Err(e) => Err(e),
            Ok(known) => after_connector_status(known, third),
        },
    }
}

/// The commands after the first are for the connector with which the snapshot began.
pub proof fn snapshot_keeps_its_connector<V, C, K>(
    start: SnapshotStart,
    first: Result<DecodedCapability<V, C>, Error>,
    second: Result<Result<K, MailboxError>, Error>,
)
    ensures
        after_capability(start, first) matches Ok(known) ==> {
            &&& known.connector == start.connector
            &&& after_connector_capability(known, second) matches Ok(further)
                ==> further.connector == start.connector
        },
{
}

/// There is a snapshot exactly where every command succeeds and every mailbox decodes, and it
/// holds what was decoded.
pub proof fn snapshot_holds_what_was_decoded<V, C, K, S>(
    connector: u8,
    first: Result<DecodedCapability<V, C>, Error>,
    second: Result<Result<K, MailboxError>, Error>,
    third: Result<Result<S, MailboxError>, Error>,
    snapshot: UcsiSnapshot<V, C, K, S>,
)
    ensures
        snapshot_of(connector, first, second, third) == Ok::<UcsiSnapshot<V, C, K, S>, Error>(
            snapshot,
        ) <==> {
            &&& first is Ok
            &&& first->Ok_0.version == Ok::<V, MailboxError>(snapshot.version)
            &&& first->Ok_0.capability == Ok::<C, MailboxError>(snapshot.capability)
            &&& second == Ok::<Result<K, MailboxError>, Error>(
                Ok::<K, MailboxError>(snapshot.connector_capability),
            )
            &&& third == Ok::<Result<S, MailboxError>, Error>(
                Ok::<S, MailboxError>(snapshot.connector_status),
            )
        },
{
}

/// A snapshot fails with the first failure, whatever the later answers would be.
pub proof fn first_failure_ends_the_snapshot<V, C, K, S>(
    connector: u8,
    first: Result<DecodedCapability<V, C>, Error>,
    second: Result<Result<K, MailboxError>, Error>,
    third: Result<Result<S, MailboxError>, Error>,
    e: Error,
)
    ensures
        after_capability(SnapshotStart { connector }, first) == Err::<WithCapability<V, C>, Error>(e)
            ==> snapshot_of(connector, first, second, third) == Err::<
            UcsiSnapshot<V, C, K, S>,
            Error,
        >(e),
        after_capability(SnapshotStart { connector }, first) is Ok && answered(second) == Err::<
            K,
            Error,
        >(e) ==> snapshot_of(connector, first, second, third) == Err::<
            UcsiSnapshot<V, C, K, S>,
            Error,
        >(e),
        after_capability(SnapshotStart { connector }, first) is Ok && answered(second) is Ok
            && answered(third) == Err::<S, Error>(e) ==> snapshot_of(
            connector,
            first,
            second,
            third,
        ) == Err::<UcsiSnapshot<V, C, K, S>, Error>(e),
{
}

/// A command that failed is reported with its error, and a mailbox that could not be decoded as
/// such; the version is reported before the capability.
pub proof fn failed_step_is_reported<V, C, K, S>(
    start: SnapshotStart,
    known: WithCapability<V, C>,
    further: WithConnectorCapability<V, C, K>,
    decoded: DecodedCapability<V, C>,
    e: Error,
    mailbox: MailboxError,
)
    ensures
        after_capability(start, Err::<DecodedCapability<V, C>, Error>(e)) == Err::<
            WithCapability<V, C>,
            Error,
        >(e),
        decoded.version == Err::<V, MailboxError>(mailbox) ==> after_capability(
            start,
            Ok::<DecodedCapability<V, C>, Error>(decoded),
        ) == Err::<WithCapability<V, C>, Error>(Error::Ucsi(mailbox)),
        decoded.version is Ok && decoded.capability == Err::<C, MailboxError>(mailbox)
            ==> after_capability(start, Ok::<DecodedCapability<V, C>, Error>(decoded)) == Err::<
            WithCapability<V, C>,
            Error,
        >(Error::Ucsi(mailbox)),
        after_connector_capability(known, Err::<Result<K, MailboxError>, Error>(e)) == Err::<
            WithConnectorCapability<V, C, K>,
            Error,
        >(e),
        after_connector_capability(
            known,
            Ok::<Result<K, MailboxError>, Error>(Err::<K, MailboxError>(mailbox)),
        ) == Err::<WithConnectorCapability<V, C, K>, Error>(Error::Ucsi(mailbox)),
        after_connector_status(further, Err::<Result<S, MailboxError>, Error>(e)) == Err::<
            UcsiSnapshot<V, C, K, S>,
            Error,
        >(e),
        after_connector_status(
            further,
            Ok::<Result<S, MailboxError>, Error>(Err::<S, MailboxError>(mailbox)),
        ) == Err::<UcsiSnapshot<V, C, K, S>, Error>(Error::Ucsi(mailbox)),
{
}

/// Each step keeps what the steps in front of it decoded and adds what its own answer holds.
pub proof fn steps_keep_what_is_known<V, C, K, S>(
    start: SnapshotStart,
    known: WithCapability<V, C>,
    further: WithConnectorCapability<V, C, K>,
    version: V,
    capability: C,
    connector_capability: K,
    connector_status: S,
)
    ensures
        after_capability(
            start,
            Ok::<DecodedCapability<V, C>, Error>(
                DecodedCapability { version: Ok(version), capability: Ok(capability) },
            ),
        ) == Ok::<WithCapability<V, C>, Error>(
            WithCapability { connector: start.connector, version, capability },
        ),
        after_connector_capability(
            known,
            Ok::<Result<K, MailboxError>, Error>(Ok::<K, MailboxError>(connector_capability)),
        ) == Ok::<WithConnectorCapability<V, C, K>, Error>(
            WithConnectorCapability {
                connector: known.connector,
                version: known.version,
                capability: known.capability,
                connector_capability,
            },
        ),
        after_connector_status(
            further,
            Ok::<Result<S, MailboxError>, Error>(Ok::<S, MailboxError>(connector_status)),
        ) == Ok::<UcsiSnapshot<V, C, K, S>, Error>(
            UcsiSnapshot {
                version: further.version,
                capability: further.capability,
                connector_capability: further.connector_capability,
                connector_status,
            },
        ),
{
}

} // verus!
