# envio_emails

Builds and sends the notification e-mails of the occurrence system of an
electrical utility: for each company registered in the e-mail database, the
occurrences whose e-mail was not sent yet are read, turned into a subject and
an HTML body (header, measurement tables, events, earlier occurrences of the
same equipment), sent to the company's recipients, and marked as sent.

- `src/` is the verified library (Verus): configuration reading, date, time
  and duration texts, the HTML of the message, the checks of the sender and
  recipient addresses, and the order in which the occurrences of a company are
  sent and marked.
- `app/` is the program around it: configuration file, database queries,
  JSON parsing of the measurement tables, template rendering, SMTP and logs.
- `tests/` exercises the library on concrete values.
